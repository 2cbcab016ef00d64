//! Secrets that never show their payload when rendered.
use vstd::prelude::*;

verus! {

/// Container that keeps its value out of every textual rendering.
pub struct Mask<T> {
    val: T,
}

/// What every mask renders as, whatever it holds.
pub open spec fn masked_text() -> Seq<char> {
    "Mask(*****)"@
}

/// Whether `needle` stands somewhere in `text` as a run of neighbours.
pub open spec fn occurs_in(needle: Seq<char>, text: Seq<char>) -> bool {
    exists|at: int|
        0 <= at && at + needle.len() <= text.len() && #[trigger] text.subrange(
            at,
            at + needle.len(),
        ) == needle
}

impl<T> Mask<T> {
    /// The mask around `val`.
    pub closed spec fn spec_new(val: T) -> Self {
        Mask { val }
    }

    /// The value under the mask.
    pub closed spec fn spec_unwrap(self) -> T {
        self.val
    }

    /// What the mask shows when rendered, for display and for debugging alike.
    pub open spec fn rendering(self) -> Seq<char> {
        masked_text()
    }

    /// Wraps `val`.
    #[verifier::when_used_as_spec(spec_new)]
    pub fn new(val: T) -> (mask: Self)
        ensures
            mask == Self::spec_new(val),
            mask.spec_unwrap() == val,
    {
        Mask { val }
    }

    /// Gives up the mask for the value under it: the only way to the value.
    #[verifier::when_used_as_spec(spec_unwrap)]
    pub fn unwrap(self) -> (val: T)
        ensures
            val == self.spec_unwrap(),
    {
        self.val
    }

    /// The mask as displayed.
    pub fn to_string(&self) -> (text: String)
        ensures
            text@ == self.rendering(),
    {
        "Mask(*****)".to_owned()
    }

    /// The mask as shown for debugging.
    pub fn to_debug_string(&self) -> (text: String)
        ensures
            text@ == self.rendering(),
    {
        "Mask(*****)".to_owned()
    }
}

impl<T: View> View for Mask<T> {
    type V = T::V;

    open spec fn view(&self) -> T::V {
        self.spec_unwrap()@
    }
}

impl<T: Clone> Clone for Mask<T> {
    fn clone(&self) -> (copy: Self)
        ensures
            cloned(self.spec_unwrap(), copy.spec_unwrap()),
    {
        Mask { val: self.val.clone() }
    }
}

impl<T: Copy> Copy for Mask<T> {}

impl<'a> From<&'a str> for Mask<String> {
    fn from(value: &'a str) -> (mask: Self)
        ensures
            mask@ == value@,
    {
        Mask::new(value.to_owned())
    }
}

/// A borrowed text names no `String` in specifications, so the conversion
/// from one is stated by `from` itself, over views.
impl<'a> vstd::std_specs::convert::FromSpecImpl<&'a str> for Mask<String> {
    open spec fn obeys_from_spec() -> bool {
        false
    }

    open spec fn from_spec(value: &'a str) -> Self {
        arbitrary()
    }
}

impl From<String> for Mask<String> {
    fn from(value: String) -> (mask: Self)
        ensures
            mask == Mask::new(value),
    {
        Mask::new(value)
    }
}

impl vstd::std_specs::convert::FromSpecImpl<String> for Mask<String> {
    open spec fn obeys_from_spec() -> bool {
        true
    }

    open spec fn from_spec(value: String) -> Self {
        Mask::new(value)
    }
}

/// A masked value and the way it is meant to be presented.
pub enum Secret<T> {
    /// A bearer token.
    Token(Mask<T>),
    /// A password.
    Pwd(Mask<T>),
}

/// A secret as contracts see it: the tag, and the view of the payload.
pub enum SecretView<V> {
    Token(V),
    Pwd(V),
}

impl<T> Secret<T> {
    /// The mask that the secret carries, whatever its tag.
    pub open spec fn spec_mask(self) -> Mask<T> {
        match self {
            Secret::Token(mask) => mask,
            Secret::Pwd(mask) => mask,
        }
    }

    /// Drops the tag.
    #[verifier::when_used_as_spec(spec_mask)]
    pub fn mask(self) -> (mask: Mask<T>)
        ensures
            mask == self.spec_mask(),
    {
        match self {
            Secret::Token(mask) => mask,
            Secret::Pwd(mask) => mask,
        }
    }
}

impl<T: View> View for Secret<T> {
    type V = SecretView<T::V>;

    open spec fn view(&self) -> SecretView<T::V> {
        match *self {
            Secret::Token(mask) => SecretView::Token(mask@),
            Secret::Pwd(mask) => SecretView::Pwd(mask@),
        }
    }
}

impl<T: Clone> Clone for Secret<T> {
    fn clone(&self) -> (copy: Self)
        ensures
            copy is Token <==> self is Token,
            cloned(self.spec_mask().spec_unwrap(), copy.spec_mask().spec_unwrap()),
    {
        match self {
            Secret::Token(mask) => Secret::Token(mask.clone()),
            Secret::Pwd(mask) => Secret::Pwd(mask.clone()),
        }
    }
}

impl<T: Copy> Copy for Secret<T> {}

/// Wrapping a value and unwrapping the mask gives the value back.
pub proof fn lemma_unwrap_new<T>(val: T)
    ensures
        Mask::new(val).unwrap() == val,
{
}

/// Two masks render alike, whatever they hold: the rendering tells nothing
/// of the payload, neither its length nor any part of it.
pub proof fn lemma_rendering_ignores_payload<T>(one: Mask<T>, other: Mask<T>)
    ensures
        one.rendering() == other.rendering(),
        one.rendering() == masked_text(),
{
}

/// The rendering of a masked text does not contain that text, unless the text
/// happens to be a piece of the fixed rendering itself.
pub proof fn lemma_rendering_omits_payload(payload: String)
    requires
        !occurs_in(payload@, masked_text()),
    ensures
        !occurs_in(payload@, Mask::new(payload).rendering()),
{
}

} // verus!
