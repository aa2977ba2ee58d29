use apdu_dispatch::apdu::{ApduHeader, Instruction};
use apdu_dispatch::event::Event;
use apdu_dispatch::status::AppSW;
use apdu_dispatch::ux::{BlockAction, BlockSignal, Completion, RequestPlan, UxCodes, UxEvent};

const CODES: UxCodes = UxCodes { ignore: 0x97, continuing: 0 };

#[test]
fn validate_pin_wakes_up_first_and_blocks() {
    assert_eq!(
        UxEvent::ValidatePIN.request(),
        RequestPlan {
            wake: Some(UxEvent::WakeUp),
            id: UxEvent::ValidatePIN,
            completion: Completion::Block,
        }
    );
}

#[test]
fn other_requests_go_alone_and_read_the_last_status() {
    for ux in [UxEvent::Event, UxEvent::Keyboard, UxEvent::WakeUp, UxEvent::LastID] {
        assert_eq!(
            ux.request(),
            RequestPlan { wake: None, id: ux, completion: Completion::LastStatus }
        );
    }
}

#[test]
fn block_returns_a_terminal_status() {
    assert_eq!(UxEvent::block(&CODES, BlockSignal::Status(0xAA)), BlockAction::Return(0xAA));
    assert_eq!(UxEvent::block(&CODES, BlockSignal::Status(0x55)), BlockAction::Return(0x55));
    assert_eq!(UxEvent::block(&CODES, BlockSignal::Status(1)), BlockAction::Return(1));
    assert_eq!(
        UxEvent::block(&CODES, BlockSignal::Status(u32::MAX)),
        BlockAction::Return(u32::MAX)
    );
}

#[test]
fn block_keeps_waiting_on_ignore_and_continue() {
    assert_eq!(UxEvent::block(&CODES, BlockSignal::Status(0x97)), BlockAction::QuerySubtask);
    assert_eq!(UxEvent::block(&CODES, BlockSignal::Status(0)), BlockAction::QuerySubtask);
}

#[test]
fn block_goes_by_the_codes_it_is_given() {
    let codes = UxCodes { ignore: 7, continuing: 9 };
    assert_eq!(UxEvent::block(&codes, BlockSignal::Status(7)), BlockAction::QuerySubtask);
    assert_eq!(UxEvent::block(&codes, BlockSignal::Status(9)), BlockAction::QuerySubtask);
    assert_eq!(UxEvent::block(&codes, BlockSignal::Status(0)), BlockAction::Return(0));
    assert_eq!(UxEvent::block(&codes, BlockSignal::Status(0x97)), BlockAction::Return(0x97));
}

#[test]
fn block_yields_to_a_running_subtask_and_drains_otherwise() {
    assert_eq!(UxEvent::block(&CODES, BlockSignal::Subtask(true)), BlockAction::Yield);
    assert_eq!(UxEvent::block(&CODES, BlockSignal::Subtask(false)), BlockAction::DrainChannel);
}

#[test]
fn a_scripted_wait_ends_on_the_first_terminal_status() {
    let statuses = [0x97u32, 0, 0, 0x97, 0xAA, 0x55];
    let running = [false, true, true, false];
    let mut polls = 0usize;
    let mut drained = 0usize;
    let mut yielded = 0usize;
    let result = loop {
        match UxEvent::block(&CODES, BlockSignal::Status(statuses[polls])) {
            BlockAction::Return(status) => break status,
            BlockAction::QuerySubtask => {
                match UxEvent::block(&CODES, BlockSignal::Subtask(running[polls])) {
                    BlockAction::DrainChannel => drained += 1,
                    BlockAction::Yield => yielded += 1,
                    other => panic!("unexpected {:?}", other),
                }
                polls += 1;
            }
            other => panic!("unexpected {:?}", other),
        }
    };
    assert_eq!(result, 0xAA);
    assert_eq!((polls, drained, yielded), (4, 2, 2));
}

#[test]
fn nothing_received_gives_no_event() {
    assert_eq!(UxEvent::block_and_get_event(None), None);
}

#[test]
fn a_tick_passes_through() {
    assert_eq!(UxEvent::block_and_get_event(Some(Event::Ticker)), Some(Event::Ticker));
}

#[test]
fn another_system_event_passes_through() {
    assert_eq!(UxEvent::block_and_get_event(Some(Event::Other)), Some(Event::Other));
}

#[test]
fn a_command_is_decoded() {
    let header = ApduHeader { cla: 0xE0, ins: 3, p1: 0, p2: 0, len: 0 };
    assert_eq!(
        UxEvent::block_and_get_event(Some(Event::Command(header))),
        Some(Event::Command(Ok(Instruction::GetVersion)))
    );
}

#[test]
fn a_command_that_fails_to_decode_is_still_a_command() {
    for (ins, p1, p2) in [(9u8, 0u8, 0u8), (3, 1, 0), (3, 0, 1), (0, 0, 0), (255, 255, 255)] {
        let header = ApduHeader { cla: 0xE0, ins, p1, p2, len: 0 };
        assert_eq!(
            UxEvent::block_and_get_event(Some(Event::Command(header))),
            Some(Event::Command(Err(AppSW::InsNotSupported)))
        );
    }
}
