//! The error carrier: one error value whose concrete type is hidden behind a
//! runtime type tag, and the result type that uses it.
use vstd::prelude::*;

verus! {

/// An error value together with the runtime tag of its concrete type and its
/// human-readable text.
///
/// The tag plays the part of a type token: `downcast` hands the value back
/// only to a caller that names the tag it was wrapped with.
pub struct ErasedError<V> {
    tag: u64,
    value: V,
    text: String,
}

/// A result whose failure case is an `ErasedError`.
pub type DynResult<T, V> = Result<T, ErasedError<V>>;

impl<V> ErasedError<V> {
    /// The runtime type tag the value was wrapped with.
    pub closed spec fn type_tag(self) -> u64 {
        self.tag
    }

    /// The wrapped value.
    pub closed spec fn payload(self) -> V {
        self.value
    }

    /// The display text of the wrapped value.
    pub closed spec fn display(self) -> Seq<char> {
        self.text@
    }

    /// What a downcast to `tag` recovers: the value when the tags agree,
    /// nothing otherwise.
    pub open spec fn recovered(self, tag: u64) -> Option<V> {
        if self.type_tag() == tag {
            Some(self.payload())
        } else {
            None
        }
    }

    /// Wraps `value`, of the concrete type tagged `tag`, whose display text is
    /// `text`.
    pub fn wrap(tag: u64, value: V, text: String) -> (r: Self)
        ensures
            r.type_tag() == tag,
            r.payload() == value,
            r.display() == text@,
    {
        ErasedError { tag, value, text }
    }

    /// The runtime type tag of the wrapped value.
    pub fn tag(&self) -> (r: u64)
        ensures
            r == self.type_tag(),
    {
        self.tag
    }

    /// The display text of the wrapped value.
    pub fn text(&self) -> (r: &str)
        ensures
            r@ == self.display(),
    {
        self.text.as_str()
    }

    /// Recovers the wrapped value if its type tag is `tag`.
    pub fn downcast(&self, tag: u64) -> (r: Option<&V>)
        ensures
            match r {
                Some(v) => self.recovered(tag) == Some(*v),
                None => self.recovered(tag) is None,
            },
    {
        if self.tag == tag {
            Some(&self.value)
        } else {
            None
        }
    }

    /// Takes the carrier apart into its tag, value and text.
    pub fn into_parts(self) -> (r: (u64, V, String))
        ensures
            r.0 == self.type_tag(),
            r.1 == self.payload(),
            r.2@ == self.display(),
    {
        (self.tag, self.value, self.text)
    }
}

/// The failure result for an error value of the type tagged `tag`.
pub fn dynerr<T, V>(tag: u64, value: V, text: String) -> (r: DynResult<T, V>)
    ensures
        r matches Err(e) && e.type_tag() == tag && e.payload() == value && e.display() == text@,
{
    Err(ErasedError::wrap(tag, value, text))
}

/// A value wrapped under `tag` is recovered unchanged by a downcast to `tag`,
/// and by no downcast to another tag.
pub proof fn lemma_wrap_recovers<V>(err: ErasedError<V>, tag: u64, value: V, other: u64)
    requires
        err.type_tag() == tag,
        err.payload() == value,
        other != tag,
    ensures
        err.recovered(tag) == Some(value),
        err.recovered(other) is None,
{
}

} // verus!
