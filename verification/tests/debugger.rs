use dd_sidecar::debugger::{debugger_sender_step, SenderStep};

#[test]
fn a_payload_sender_is_rotated_when_the_tags_change() {
    assert_eq!(debugger_sender_step(true, true), SenderStep::FinishAndCreate);
    assert_eq!(debugger_sender_step(false, true), SenderStep::Create);
    assert_eq!(debugger_sender_step(false, false), SenderStep::Create);
    assert_eq!(debugger_sender_step(true, false), SenderStep::Reuse);
}
