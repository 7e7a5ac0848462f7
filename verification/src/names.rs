//! The names under which a configuration refers to the variants.

use vstd::prelude::*;
use vstd::string::StrSliceExecFns;
use crate::policy::{TargetRule, TransitionPolicy};
use crate::route::RouteId;
use crate::variant::TransitionVariant;

verus! {

/// Whether two texts hold the same characters.
pub fn same_text(a: &str, b: &str) -> (same: bool)
    ensures
        same == (a@ == b@),
{
    let n: usize = a.unicode_len();
    if n != b.unicode_len() {
        return false;
    }
    let mut i: usize = 0;
    while i < n
        invariant
            i <= n,
            n == a@.len(),
            n == b@.len(),
            forall|k: int| 0 <= k < i ==> a@[k] == b@[k],
        decreases n - i,
    {
        if a.get_char(i) != b.get_char(i) {
            return false;
        }
        i += 1;
    }
    assert(a@ =~= b@);
    true
}

/// The variant that a name stands for. The variants without parts have
/// names; a custom one has none, since a name cannot carry its transform.
pub open spec fn named(name: Seq<char>) -> Option<TransitionVariant> {
    if name == "SlideLeft"@ {
        Some(TransitionVariant::SlideLeft)
    } else if name == "SlideRight"@ {
        Some(TransitionVariant::SlideRight)
    } else if name == "SlideUp"@ {
        Some(TransitionVariant::SlideUp)
    } else if name == "SlideDown"@ {
        Some(TransitionVariant::SlideDown)
    } else if name == "Fade"@ {
        Some(TransitionVariant::Fade)
    } else if name == "Scale"@ {
        Some(TransitionVariant::Scale)
    } else {
        None
    }
}

impl TransitionVariant {
    /// The variant of that name, if there is one.
    pub fn from_name(name: &str) -> (variant: Option<TransitionVariant>)
        ensures
            variant == named(name@),
    {
        if same_text(name, "SlideLeft") {
            Some(TransitionVariant::SlideLeft)
        } else if same_text(name, "SlideRight") {
            Some(TransitionVariant::SlideRight)
        } else if same_text(name, "SlideUp") {
            Some(TransitionVariant::SlideUp)
        } else if same_text(name, "SlideDown") {
            Some(TransitionVariant::SlideDown)
        } else if same_text(name, "Fade") {
            Some(TransitionVariant::Fade)
        } else if same_text(name, "Scale") {
            Some(TransitionVariant::Scale)
        } else {
            None
        }
    }

    /// The variant that a route declares: the one of the name it gives, and
    /// a fade where it gives none or one that is not known.
    pub fn declared(name: Option<&str>) -> (variant: TransitionVariant)
        ensures
            variant == (match name {
                Some(text) => match named(text@) {
                    Some(found) => found,
                    None => TransitionVariant::Fade,
                },
                None => TransitionVariant::Fade,
            }),
    {
        match name {
            Some(text) => match TransitionVariant::from_name(text) {
                Some(found) => found,
                None => TransitionVariant::Fade,
            },
            None => TransitionVariant::Fade,
        }
    }
}

impl TransitionPolicy {
    /// Adds the rule that a route declares for arriving at it, behind the
    /// rules there are: the variant of the name it gives, and a fade where it
    /// gives none or one that is not known.
    pub fn add_declared_target(&mut self, to: RouteId, name: Option<&str>)
        ensures
            final(self).targets@ == old(self).targets@.push(
                TargetRule {
                    to,
                    variant: match name {
                        Some(text) => match named(text@) {
                            Some(found) => found,
                            None => TransitionVariant::Fade,
                        },
                        None => TransitionVariant::Fade,
                    },
                },
            ),
            final(self).pairs@ == old(self).pairs@,
            final(self).fallback == old(self).fallback,
    {
        let variant = TransitionVariant::declared(name);
        self.add_target(to, variant);
    }
}

} // verus!
