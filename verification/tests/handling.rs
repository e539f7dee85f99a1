use panic_handler::failure::{FailureInfo, Location, Payload};
use panic_handler::handler::{
    CountingHook, DialogOutcome, DispatchContext, FixedText, PanicHandler,
};
use panic_handler::slot::HookSlot;

fn sample_info() -> FailureInfo {
    FailureInfo {
        location: Some(Location { file: String::from("a.rs"), line: 12, column: 13 }),
        payload: Payload::OwnedText(String::from("Example Message")),
    }
}

fn quiet() -> DispatchContext {
    DispatchContext { log_to_stderr: false, show_dialog: false }
}

#[test]
fn default_composition() {
    let info = FailureInfo { location: None, payload: Payload::Opaque };
    let mut handler = PanicHandler::new().build();
    let report = handler.handle(&info, quiet());
    assert_eq!(report.title, "Fatal Error");
    assert_eq!(report.body, "Unhandled panic! at Unknown Location:\nNo Info");
}

#[test]
fn log_record_is_title_then_body() {
    let mut handler = PanicHandler::new().build();
    let report = handler.handle(&sample_info(), quiet());
    assert_eq!(
        report.log_record,
        "Fatal Error\nUnhandled panic! at a.rs:12:13:\nExample Message"
    );
}

#[test]
fn title_override_leaves_body_default() {
    let mut handler = PanicHandler::new()
        .set_title_func(FixedText { text: String::from("Custom Title") })
        .build();
    let report = handler.handle(&sample_info(), quiet());
    assert_eq!(report.title, "Custom Title");
    assert_eq!(report.body, "Unhandled panic! at a.rs:12:13:\nExample Message");
}

#[test]
fn body_override_leaves_title_default() {
    let mut handler = PanicHandler::new()
        .set_body_func(FixedText { text: String::from("Custom Body") })
        .build();
    let report = handler.handle(&sample_info(), quiet());
    assert_eq!(report.title, "Fatal Error");
    assert_eq!(report.body, "Custom Body");
}

#[test]
fn hook_override_leaves_texts_default() {
    let mut handler = PanicHandler::new().set_call_func(CountingHook { count: 0 }).build();
    let report = handler.handle(&sample_info(), quiet());
    assert_eq!(report.title, "Fatal Error");
    assert_eq!(report.body, "Unhandled panic! at a.rs:12:13:\nExample Message");
    assert_eq!(handler.hook.count, 1);
}

#[test]
fn hook_runs_once_per_failure() {
    let mut handler = PanicHandler::new().set_call_func(CountingHook { count: 0 }).build();
    handler.handle(&sample_info(), quiet());
    handler.handle(&sample_info(), quiet());
    assert_eq!(handler.hook.count, 2);
}

#[test]
fn capture_takes_previous_hook_out_of_slot() {
    let mut slot: HookSlot<CountingHook> = HookSlot::empty();
    slot.install(CountingHook { count: 0 });
    let builder = PanicHandler::new_take_old(&mut slot);
    assert!(!slot.is_installed());
    let mut handler = builder.build();
    let report = handler.handle(&sample_info(), quiet());
    assert!(matches!(report.dialog, DialogOutcome::Skipped));
    let captured = handler.hook.prev.expect("a hook was installed before the capture");
    assert_eq!(captured.count, 1);
}

#[test]
fn capture_from_empty_slot_still_handles() {
    let mut slot: HookSlot<CountingHook> = HookSlot::empty();
    let mut handler = PanicHandler::new_take_old(&mut slot).build();
    let report = handler.handle(&sample_info(), quiet());
    assert_eq!(report.title, "Fatal Error");
    assert!(handler.hook.prev.is_none());
}

#[test]
fn double_install_keeps_only_second() {
    let mut slot: HookSlot<CountingHook> = HookSlot::empty();
    slot.install(CountingHook { count: 0 });
    slot.install(CountingHook { count: 10 });
    let info = FailureInfo { location: None, payload: Payload::Opaque };
    slot.fire(&info);
    let installed = slot.take().expect("the second hook stays installed");
    assert_eq!(installed.count, 11);
}

#[test]
fn fire_on_empty_slot_does_nothing() {
    let mut slot: HookSlot<CountingHook> = HookSlot::empty();
    let info = FailureInfo { location: None, payload: Payload::Opaque };
    slot.fire(&info);
    assert!(!slot.is_installed());
}

#[test]
fn install_replaces_through_handler() {
    let mut slot = HookSlot::empty();
    let first = PanicHandler::new().set_call_func(CountingHook { count: 0 }).build();
    let second = PanicHandler::new().set_call_func(CountingHook { count: 100 }).build();
    first.install(&mut slot);
    second.install(&mut slot);
    let info = FailureInfo { location: None, payload: Payload::Opaque };
    let mut installed = slot.take().expect("the second handler stays installed");
    installed.handle(&info, quiet());
    assert_eq!(installed.hook.count, 101);
}

#[test]
fn dialog_skipped_in_harness_context() {
    let mut handler = PanicHandler::new().set_call_func(CountingHook { count: 0 }).build();
    let report = handler.handle(&sample_info(), quiet());
    assert!(matches!(report.dialog, DialogOutcome::Skipped));
    assert_eq!(handler.hook.count, 1);
}

#[test]
fn dialog_error_is_swallowed_and_hook_still_runs() {
    let mut handler = PanicHandler::new().set_call_func(CountingHook { count: 0 }).build();
    let ctx = DispatchContext { log_to_stderr: false, show_dialog: true };
    let report = handler.handle(&sample_info(), ctx);
    assert!(!matches!(report.dialog, DialogOutcome::Skipped));
    assert_eq!(handler.hook.count, 1);
}
