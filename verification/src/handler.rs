//! The handler itself: the two trait shapes of its three function
//! slots, their default implementations, the fluent builder that
//! resolves the slots, and the dispatch logic run on each failure.

use vstd::prelude::*;
use vstd::string::StringExecFns;

use crate::dialog;
use crate::failure::FailureInfo;
use crate::slot::HookSlot;
use crate::text::{default_body_text, default_title_text, spec_default_body, spec_default_title};

verus! {

/// A title or body producer: a pure function from one failure event to
/// text, safe to invoke from any thread at any time.
pub trait PanicHandleFn: Sized {
    /// The text produced for `info`.
    spec fn spec_call(&self, info: FailureInfo) -> Seq<char>;

    /// Produce the text for `info`; total, never fails.
    fn call(&self, info: &FailureInfo) -> (r: String)
        ensures
            r@ == self.spec_call(*info),
    ;
}

/// A post-notification hook: invoked once per failure event, after
/// logging and the dialog attempt.  Its only observable effect is on
/// its own state, which `spec_notify` describes.
pub trait PanicNotifyFn: Sized {
    /// The hook's state after one invocation on `info`.
    spec fn spec_notify(&self, info: FailureInfo) -> Self;

    /// Invoke the hook on `info`; total, never fails.
    fn notify(&mut self, info: &FailureInfo)
        ensures
            *final(self) == old(self).spec_notify(*info),
    ;
}

/// The default title producer: the constant "Fatal Error".
#[derive(Clone, Copy)]
pub struct DefaultTitle;

impl PanicHandleFn for DefaultTitle {
    open spec fn spec_call(&self, info: FailureInfo) -> Seq<char> {
        spec_default_title()
    }

    fn call(&self, info: &FailureInfo) -> (r: String) {
        default_title_text()
    }
}

/// The default body producer: location and payload text in the form
/// "Unhandled panic! at <location>:\n<payload>".
#[derive(Clone, Copy)]
pub struct DefaultBody;

impl PanicHandleFn for DefaultBody {
    open spec fn spec_call(&self, info: FailureInfo) -> Seq<char> {
        spec_default_body(info)
    }

    fn call(&self, info: &FailureInfo) -> (r: String) {
        default_body_text(info)
    }
}

/// A producer that ignores the failure event and returns a fixed text.
#[derive(Clone)]
pub struct FixedText {
    pub text: String,
}

impl PanicHandleFn for FixedText {
    open spec fn spec_call(&self, info: FailureInfo) -> Seq<char> {
        self.text@
    }

    fn call(&self, info: &FailureInfo) -> (r: String) {
        self.text.clone()
    }
}

/// The default post-notification hook: does nothing.
#[derive(Clone, Copy)]
pub struct NoopHook;

impl PanicNotifyFn for NoopHook {
    open spec fn spec_notify(&self, info: FailureInfo) -> Self {
        NoopHook
    }

    fn notify(&mut self, info: &FailureInfo) {
    }
}

/// A hook that counts its invocations, saturating at the largest count;
/// useful to observe that a hook ran exactly once.
#[derive(Clone, Copy)]
pub struct CountingHook {
    pub count: u64,
}

impl PanicNotifyFn for CountingHook {
    open spec fn spec_notify(&self, info: FailureInfo) -> Self {
        if self.count == u64::MAX {
            CountingHook { count: self.count }
        } else {
            CountingHook { count: (self.count + 1) as u64 }
        }
    }

    fn notify(&mut self, info: &FailureInfo) {
        if self.count < u64::MAX {
            self.count = self.count + 1;
        }
    }
}

/// The hook taken out of the process-wide slot at build time: invoking
/// it chains to the previously installed hook, exactly once per
/// failure event, or does nothing when the slot was empty.
#[derive(Clone)]
pub struct CapturedHook<E> {
    pub prev: Option<E>,
}

impl<E: PanicNotifyFn> PanicNotifyFn for CapturedHook<E> {
    open spec fn spec_notify(&self, info: FailureInfo) -> Self {
        match self.prev {
            Some(p) => CapturedHook { prev: Some(p.spec_notify(info)) },
            None => CapturedHook { prev: None },
        }
    }

    fn notify(&mut self, info: &FailureInfo) {
        match &mut self.prev {
            Some(p) => p.notify(info),
            None => {},
        }
    }
}

/// Fluent configuration for a handler.  Every slot is always populated:
/// a fresh builder starts at the defaults, each setter replaces exactly
/// one slot, and `build` resolves the accumulated slots into an
/// immutable handler.  A builder is consumed by `build` and not reused.
pub struct PanicHandlerBuilder<T, B, H> {
    pub title: T,
    pub body: B,
    pub hook: H,
}

impl<T, B, H> PanicHandlerBuilder<T, B, H> {
    /// Replace the title slot; the body and hook slots are untouched.
    pub fn set_title_func<T2: PanicHandleFn>(self, title_func: T2) -> (r: PanicHandlerBuilder<
        T2,
        B,
        H,
    >)
        ensures
            r.title == title_func,
            r.body == self.body,
            r.hook == self.hook,
    {
        PanicHandlerBuilder { title: title_func, body: self.body, hook: self.hook }
    }

    /// Replace the body slot; the title and hook slots are untouched.
    pub fn set_body_func<B2: PanicHandleFn>(self, body_func: B2) -> (r: PanicHandlerBuilder<
        T,
        B2,
        H,
    >)
        ensures
            r.title == self.title,
            r.body == body_func,
            r.hook == self.hook,
    {
        PanicHandlerBuilder { title: self.title, body: body_func, hook: self.hook }
    }

    /// Replace the post-notification hook slot; the title and body
    /// slots are untouched.
    pub fn set_call_func<H2: PanicNotifyFn>(self, call_func: H2) -> (r: PanicHandlerBuilder<
        T,
        B,
        H2,
    >)
        ensures
            r.title == self.title,
            r.body == self.body,
            r.hook == call_func,
    {
        PanicHandlerBuilder { title: self.title, body: self.body, hook: call_func }
    }

    /// Capture the currently installed hook as the post-notification
    /// slot.  The entry is taken out of the slot, not copied: the slot
    /// is empty afterwards, so the previous hook cannot also fire on
    /// its own.  Nothing is installed here.
    pub fn take_call_from_existing<E: PanicNotifyFn>(self, slot: &mut HookSlot<E>) -> (r:
        PanicHandlerBuilder<T, B, CapturedHook<E>>)
        ensures
            r.title == self.title,
            r.body == self.body,
            r.hook.prev == old(slot).spec_current(),
            final(slot).spec_current() == None::<E>,
    {
        let prev = slot.take();
        PanicHandlerBuilder { title: self.title, body: self.body, hook: CapturedHook { prev } }
    }

    /// Resolve the accumulated slots into an immutable handler.  All
    /// paths succeed: every slot already holds a function.
    pub fn build(self) -> (r: PanicHandler<T, B, H>)
        ensures
            r.title == self.title,
            r.body == self.body,
            r.hook == self.hook,
    {
        PanicHandler { title: self.title, body: self.body, hook: self.hook }
    }
}

/// The immutable, fully resolved handler: a title producer, a body
/// producer and a post-notification hook, all always populated.
#[derive(Clone)]
pub struct PanicHandler<T, B, H> {
    pub title: T,
    pub body: B,
    pub hook: H,
}

impl PanicHandler<DefaultTitle, DefaultBody, NoopHook> {
    /// A fresh builder with every slot at its default: constant title,
    /// location-and-payload body, no-op hook.
    pub fn new() -> (r: PanicHandlerBuilder<DefaultTitle, DefaultBody, NoopHook>)
        ensures
            r.title == DefaultTitle,
            r.body == DefaultBody,
            r.hook == NoopHook,
    {
        PanicHandlerBuilder { title: DefaultTitle, body: DefaultBody, hook: NoopHook }
    }
}

impl<E: PanicNotifyFn> PanicHandler<DefaultTitle, DefaultBody, CapturedHook<E>> {
    /// A fresh builder whose post-notification hook is the hook taken
    /// out of `slot`, and whose other slots are at their defaults.
    pub fn new_take_old(slot: &mut HookSlot<E>) -> (r: PanicHandlerBuilder<
        DefaultTitle,
        DefaultBody,
        CapturedHook<E>,
    >)
        ensures
            r.title == DefaultTitle,
            r.body == DefaultBody,
            r.hook.prev == old(slot).spec_current(),
            final(slot).spec_current() == None::<E>,
    {
        PanicHandler::new().take_call_from_existing(slot)
    }
}

/// Per-invocation context supplied by the host: whether to write the
/// log record to the raw standard-error stream, and whether a blocking
/// dialog may be attempted at all (it must not be inside an automated
/// harness or on a platform without desktop dialogs).
#[derive(Clone, Copy)]
pub struct DispatchContext {
    pub log_to_stderr: bool,
    pub show_dialog: bool,
}

/// What became of the dialog step of one dispatch.
pub enum DialogOutcome {
    /// No dialog was attempted.
    Skipped,
    /// The dialog was shown and dismissed.
    Shown,
    /// The dialog capability reported an error, which was swallowed.
    Failed(String),
}

/// The outputs of one dispatch: the computed texts, the log record that
/// was (or would be) emitted, and the dialog outcome.
pub struct DispatchReport {
    pub title: String,
    pub body: String,
    pub log_record: String,
    pub dialog: DialogOutcome,
}

impl<T: PanicHandleFn, B: PanicHandleFn, H: PanicNotifyFn> PanicHandler<T, B, H> {
    /// Handle one failure event: compute the title and body, emit the
    /// log record (best effort), attempt the blocking dialog only when
    /// the context allows it and swallow any dialog error, then invoke
    /// the post-notification hook exactly once.  Always returns
    /// normally; the title and body slots are left untouched.
    pub fn handle(&mut self, info: &FailureInfo, ctx: DispatchContext) -> (r: DispatchReport)
        ensures
            final(self).title == old(self).title,
            final(self).body == old(self).body,
            final(self).hook == old(self).hook.spec_notify(*info),
            r.title@ == old(self).title.spec_call(*info),
            r.body@ == old(self).body.spec_call(*info),
            r.log_record@ == r.title@ + "\n"@ + r.body@,
            (r.dialog is Skipped) <==> !ctx.show_dialog,
    {
        let title = self.title.call(info);
        let body = self.body.call(info);
        let mut log_record = title.clone();
        log_record.append("\n");
        log_record.append(body.as_str());
        if ctx.log_to_stderr {
            dialog::write_stderr_line(log_record.as_str());
        }
        let dialog_outcome = if ctx.show_dialog {
            match dialog::show_error_dialog(title.as_str(), body.as_str()) {
                Ok(()) => DialogOutcome::Shown,
                Err(e) => DialogOutcome::Failed(e),
            }
        } else {
            DialogOutcome::Skipped
        };
        self.hook.notify(info);
        DispatchReport { title, body, log_record, dialog: dialog_outcome }
    }

    /// Install this handler into the process-wide slot, replacing and
    /// dropping whatever was installed before.  The older handler is
    /// not chained unless it was captured beforehand.
    pub fn install(self, slot: &mut HookSlot<PanicHandler<T, B, H>>)
        ensures
            final(slot).spec_current() == Some(self),
    {
        slot.install(self);
    }
}

} // verus!
