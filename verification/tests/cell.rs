use oneshot_handshake::state::combine;
use oneshot_handshake::state::State;
use oneshot_handshake::Cancelled;

#[test]
fn push_fills_an_unset_cell() {
    let mut cell = State::Unset;
    assert_eq!(cell.push(3u8), Ok(Ok(())));
    assert_eq!(cell, State::Filled(3));
}

#[test]
fn push_on_a_filled_cell_hands_the_value_back() {
    let mut cell = State::Filled(1u8);
    assert_eq!(cell.push(2), Ok(Err(2)));
    assert_eq!(cell, State::Filled(1));
}

#[test]
fn push_on_a_cancelled_cell_hands_the_value_back() {
    let mut cell = State::Cancelled;
    assert_eq!(cell.push(2u8), Err(2));
    assert_eq!(cell, State::Cancelled);
}

#[test]
fn pull_on_an_unset_cell_finds_nothing() {
    let mut cell = State::<u8>::Unset;
    assert_eq!(cell.pull(), Ok(None));
    assert_eq!(cell, State::Unset);
}

#[test]
fn pull_empties_a_filled_cell() {
    let mut cell = State::Filled(7u8);
    assert_eq!(cell.pull(), Ok(Some(7)));
    assert_eq!(cell, State::Unset);
}

#[test]
fn pull_on_a_cancelled_cell_reports_it() {
    let mut cell = State::<u8>::Cancelled;
    assert_eq!(cell.pull(), Err(Cancelled));
    assert_eq!(cell, State::Cancelled);
}

#[test]
fn pair_fills_an_unset_cell() {
    let mut cell = State::Unset;
    assert_eq!(cell.pair(4u8), Ok(None));
    assert_eq!(cell, State::Filled(4));
}

#[test]
fn pair_puts_the_stored_value_first() {
    let mut cell = State::Filled(1u8);
    assert_eq!(cell.pair(2), Ok(Some((1, 2))));
    assert_eq!(cell, State::Unset);
}

#[test]
fn pair_on_a_cancelled_cell_hands_the_value_back() {
    let mut cell = State::Cancelled;
    assert_eq!(cell.pair(2u8), Err(2));
    assert_eq!(cell, State::Cancelled);
}

#[test]
fn peek_reads_each_state() {
    assert_eq!(State::<u8>::Unset.peek(), Ok(false));
    assert_eq!(State::Filled(0u8).peek(), Ok(true));
    assert_eq!(State::<u8>::Cancelled.peek(), Err(Cancelled));
}

#[test]
fn discard_cancels_an_unset_cell() {
    let mut cell = State::<u8>::Unset;
    assert_eq!(cell.discard(), None);
    assert_eq!(cell, State::Cancelled);
}

#[test]
fn discard_takes_the_value_out_of_a_filled_cell() {
    let mut cell = State::Filled(9u8);
    assert_eq!(cell.discard(), Some(9));
    assert_eq!(cell, State::Unset);
}

#[test]
fn discard_leaves_a_cancelled_cell_cancelled() {
    let mut cell = State::<u8>::Cancelled;
    assert_eq!(cell.discard(), None);
    assert_eq!(cell, State::Cancelled);
}

#[test]
fn cancelled_is_terminal() {
    let mut cell = State::<u8>::Unset;
    assert_eq!(cell.discard(), None);
    assert_eq!(cell.push(1), Err(1));
    assert_eq!(cell.pair(2), Err(2));
    assert_eq!(cell.pull(), Err(Cancelled));
    assert_eq!(cell.peek(), Err(Cancelled));
    assert_eq!(cell.discard(), None);
    assert_eq!(cell, State::Cancelled);
}

#[test]
fn two_using_actions_leave_no_value_behind() {
    let mut cell = State::Unset;
    assert_eq!(cell.push(1u8), Ok(Ok(())));
    assert_eq!(cell.discard(), Some(1));
    assert_eq!(cell, State::Unset);

    let mut cell = State::Unset;
    assert_eq!(cell.pair(1u8), Ok(None));
    assert_eq!(cell.pair(2u8), Ok(Some((1, 2))));
    assert_eq!(cell, State::Unset);

    let mut cell = State::Unset;
    assert_eq!(cell.discard(), None);
    assert_eq!(cell.pair(2u8), Err(2));
    assert_eq!(cell, State::Cancelled);
}

#[test]
fn combine_applies_the_combiner_to_the_pair_in_order() {
    assert_eq!(combine(Ok(Some((10i32, 3i32))), |x, y| x - y), Ok(Some(7)));
    assert_eq!(combine(Ok(Some((3i32, 10i32))), |x, y| x - y), Ok(Some(-7)));
}

#[test]
fn combine_passes_the_other_replies_through() {
    assert_eq!(combine(Ok(None), |x: u8, y: u8| x + y), Ok(None));
    assert_eq!(combine(Err(5u8), |x: u8, y: u8| x + y), Err(5));
}

#[test]
fn cancelled_values_are_all_alike() {
    assert_eq!(Cancelled, Cancelled);
    assert!(Cancelled <= Cancelled);
    let copy = Cancelled;
    assert_eq!(format!("{:?}", copy), "Cancelled");
}
