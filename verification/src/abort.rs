//! Calling off a fetch while it is under way.
use std::sync::atomic::AtomicBool;
use std::sync::Arc;
use vstd::prelude::*;
use vstd::std_specs::convert::FromSpecImpl;

verus! {

/// Fetch abort control
///
/// It is made of a flag that somebody else holds too and may raise at any
/// time. The default control has no such flag, and never aborts.
pub struct Abort(Option<Arc<AtomicBool>>);

impl Abort {
    /// The flag that is raised to abort, if there is one.
    pub closed spec fn flag(self) -> Option<Arc<AtomicBool>> {
        self.0
    }

    /// Whether `r` is an answer that looking at the flag gives: what a load of
    /// it returns, or `false` where there is no flag.
    pub open spec fn observes(self, r: bool) -> bool {
        match self.flag() {
            Some(flag) => call_ensures(
                AtomicBool::load,
                (&*flag, std::sync::atomic::Ordering::SeqCst),
                r,
            ),
            None => !r,
        }
    }

    /// Returns `true` if request is aborted.
    ///
    /// A flag is shared with whoever can raise it, so two calls may differ.
    /// Without a flag the answer is always `false`.
    pub fn is_aborted(&self) -> (r: bool)
        ensures
            self.observes(r),
    {
        match &self.0 {
            Some(flag) => flag.load(std::sync::atomic::Ordering::SeqCst),
            None => false,
        }
    }
}

/// The text of a control that is aborted, or is not.
pub open spec fn abort_text(aborted: bool) -> Seq<char> {
    if aborted {
        "Abort(true)"@
    } else {
        "Abort(false)"@
    }
}

impl Abort {
    /// The control as a text, which says whether the request is aborted.
    pub fn describe(&self) -> (text: String)
        ensures
            exists|aborted: bool| #[trigger]
                self.observes(aborted) && text@ == abort_text(aborted),
    {
        if self.is_aborted() {
            "Abort(true)".to_owned()
        } else {
            "Abort(false)".to_owned()
        }
    }
}

impl Clone for Abort {
    /// A control that is aborted whenever this one is.
    fn clone(&self) -> (r: Self)
        ensures
            r == *self,
    {
        match &self.0 {
            Some(flag) => Abort(Some(flag.clone())),
            None => Abort(None),
        }
    }
}

impl Default for Abort {
    /// A control that never aborts.
    fn default() -> (r: Self)
        ensures
            r.flag() is None,
    {
        Abort(None)
    }
}

impl FromSpecImpl<Arc<AtomicBool>> for Abort {
    open spec fn obeys_from_spec() -> bool {
        true
    }

    closed spec fn from_spec(a: Arc<AtomicBool>) -> Self {
        Abort(Some(a))
    }
}

impl From<Arc<AtomicBool>> for Abort {
    fn from(a: Arc<AtomicBool>) -> (r: Self)
        ensures
            r.flag() == Some(a),
    {
        Abort(Some(a))
    }
}

} // verus!
