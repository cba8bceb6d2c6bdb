//! The mathematical value that a run-time value stands for.
use vstd::prelude::*;

verus! {

/// A type whose values stand for mathematical values: text for `Seq<char>`, a vector for a
/// sequence of what its items stand for, and so on through options, results and pairs.
pub trait Model {
    /// What a value stands for.
    type M;

    /// The mathematical value that `self` stands for.
    spec fn model(&self) -> Self::M;
}

/// What the items of a sequence stand for.
pub open spec fn models<T: Model>(s: Seq<T>) -> Seq<T::M> {
    s.map_values(|t: T| t.model())
}

impl Model for () {
    type M = ();

    open spec fn model(&self) -> () {
        ()
    }
}

impl Model for bool {
    type M = bool;

    open spec fn model(&self) -> bool {
        *self
    }
}

impl Model for usize {
    type M = int;

    open spec fn model(&self) -> int {
        *self as int
    }
}

impl Model for String {
    type M = Seq<char>;

    open spec fn model(&self) -> Seq<char> {
        self@
    }
}

impl<T: Model> Model for Option<T> {
    type M = Option<T::M>;

    open spec fn model(&self) -> Option<T::M> {
        match self {
            Some(t) => Some(t.model()),
            None => None,
        }
    }
}

impl<T: Model, E: Model> Model for Result<T, E> {
    type M = Result<T::M, E::M>;

    open spec fn model(&self) -> Result<T::M, E::M> {
        match self {
            Ok(t) => Ok(t.model()),
            Err(e) => Err(e.model()),
        }
    }
}

impl<T: Model> Model for Vec<T> {
    type M = Seq<T::M>;

    open spec fn model(&self) -> Seq<T::M> {
        models(self@)
    }
}

impl<A: Model, B: Model> Model for (A, B) {
    type M = (A::M, B::M);

    open spec fn model(&self) -> (A::M, B::M) {
        (self.0.model(), self.1.model())
    }
}

/// Appending an item appends what it stands for.
pub broadcast proof fn lemma_models_push<T: Model>(s: Seq<T>, t: T)
    ensures
        #[trigger] models(s.push(t)) == models(s).push(t.model()),
{
    assert(models(s.push(t)) =~= models(s).push(t.model()));
}

} // verus!
