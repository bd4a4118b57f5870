use vstd::prelude::*;

verus! {

/// States a fact that the caller guarantees: `predicate` must return `true`.
///
/// The predicate is evaluated once and has no other effect. A predicate that
/// could return `false` is ruled out by the precondition, so verified callers
/// never reach the failure branch; a caller outside verification that breaks
/// the contract gets a panic, never a silent wrong answer.
pub fn assume_that(predicate: impl Fn() -> bool)
    requires
        call_requires(predicate, ()),
        forall|b: bool| call_ensures(predicate, (), b) ==> b,
    ensures
        call_ensures(predicate, (), true),
{
    let f = predicate();
    if !f {
        vstd::pervasive::unreached::<()>();
    }
}

/// Unwrapping of option-like values whose presence (or absence) the caller
/// guarantees.
pub trait OptionAssume<T>: Sized {
    /// Whether the value holds a payload.
    spec fn is_present(&self) -> bool;

    /// The payload of a present value.
    spec fn present_value(&self) -> T;

    /// Returns the payload; the caller guarantees that it is there. A caller
    /// outside verification that breaks this gets a panic.
    fn assume_some(self) -> (r: T)
        requires
            self.is_present(),
        ensures
            r == self.present_value(),
    ;

    /// Discards a value that the caller guarantees to be absent.
    fn assume_none(self)
        requires
            !self.is_present(),
    ;
}

impl<T> OptionAssume<T> for Option<T> {
    open spec fn is_present(&self) -> bool {
        self is Some
    }

    open spec fn present_value(&self) -> T {
        self->Some_0
    }

    fn assume_some(self) -> (r: T) {
        match self {
            Some(this) => this,
            None => vstd::pervasive::unreached(),
        }
    }

    fn assume_none(self) {
        match self {
            Some(_) => vstd::pervasive::unreached(),
            None => {},
        }
    }
}

} // verus!
