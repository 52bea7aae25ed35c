//! The identity of a stub: its variants, its mathematical view and its
//! rendering.

use crate::text::{copy_text, optional_text, same_optional_text, same_text, text};
use std::borrow::Cow;
use vstd::prelude::*;

verus! {

/// Identifies one unimplemented behaviour.
///
/// Text fields are compared as they are written: case matters and nothing is
/// normalised. A field may borrow text that lives as long as the program or
/// own text that was built while it ran; which of the two it does makes no
/// difference to what the stub is.
///
/// `==` and `clone` are written out below so that they can be proved. The
/// derived `Hash` and `Ord` go by the same fields in the same order, and by
/// the text of a field alone.
#[derive(Debug, Eq, PartialOrd, Ord, Hash)]
#[allow(inconsistent_fields)]
pub enum Stub {
    /// A method of a class of the first virtual machine.
    Avm1Method { class: &'static str, method: &'static str, specifics: Option<&'static str> },
    /// A method of a class of the second virtual machine.
    Avm2Method {
        class: Cow<'static, str>,
        method: Cow<'static, str>,
        specifics: Option<Cow<'static, str>>,
    },
    /// A property getter of the second virtual machine.
    Avm2Getter { class: Cow<'static, str>, property: Cow<'static, str> },
    /// A property setter of the second virtual machine.
    Avm2Setter { class: Cow<'static, str>, property: Cow<'static, str> },
    /// A constructor of the second virtual machine.
    Avm2Constructor { class: &'static str },
    /// Anything that fits none of the shapes above.
    Other(Cow<'static, str>),
}

/// What a [`Stub`] is, with each text field as its sequence of characters.
#[verifier::ext_equal]
pub enum StubView {
    Avm1Method { class: Seq<char>, method: Seq<char>, specifics: Option<Seq<char>> },
    Avm2Method { class: Seq<char>, method: Seq<char>, specifics: Option<Seq<char>> },
    Avm2Getter { class: Seq<char>, property: Seq<char> },
    Avm2Setter { class: Seq<char>, property: Seq<char> },
    Avm2Constructor { class: Seq<char> },
    Other(Seq<char>),
}

impl View for Stub {
    type V = StubView;

    open spec fn view(&self) -> StubView {
        match self {
            Stub::Avm1Method { class, method, specifics } => StubView::Avm1Method {
                class: class@,
                method: method@,
                specifics: specifics.deep_view(),
            },
            Stub::Avm2Method { class, method, specifics } => StubView::Avm2Method {
                class: class@,
                method: method@,
                specifics: specifics.deep_view(),
            },
            Stub::Avm2Getter { class, property } => StubView::Avm2Getter {
                class: class@,
                property: property@,
            },
            Stub::Avm2Setter { class, property } => StubView::Avm2Setter {
                class: class@,
                property: property@,
            },
            Stub::Avm2Constructor { class } => StubView::Avm2Constructor { class: class@ },
            Stub::Other(text) => StubView::Other(text@),
        }
    }
}

/// The views of a sequence of stubs, in the same order.
pub open spec fn views<T: View<V = StubView>>(stubs: Seq<T>) -> Seq<StubView> {
    stubs.map_values(|stub: T| stub@)
}

impl StubView {
    /// The one-line description of the stub that is shown to developers.
    pub open spec fn description(self) -> Seq<char> {
        match self {
            StubView::Avm1Method { class, method, specifics } => method_description(
                "AVM1 "@,
                class,
                method,
                specifics,
            ),
            StubView::Avm2Method { class, method, specifics } => method_description(
                "AVM2 "@,
                class,
                method,
                specifics,
            ),
            StubView::Avm2Getter { class, property } => accessor_description(
                class,
                property,
                " getter"@,
            ),
            StubView::Avm2Setter { class, property } => accessor_description(
                class,
                property,
                " setter"@,
            ),
            StubView::Avm2Constructor { class } => "AVM2 "@ + class + " constructor"@,
            StubView::Other(text) => text,
        }
    }
}

/// The description of a method: the machine's prefix, `class.method()`, and
/// the specifics after a space where there are any.
pub open spec fn method_description(
    prefix: Seq<char>,
    class: Seq<char>,
    method: Seq<char>,
    specifics: Option<Seq<char>>,
) -> Seq<char> {
    let call = prefix + class + "."@ + method + "()"@;
    match specifics {
        Some(details) => call + " "@ + details,
        None => call,
    }
}

/// The description of a property accessor of the second virtual machine:
/// `class.property` followed by the accessor's kind.
pub open spec fn accessor_description(
    class: Seq<char>,
    property: Seq<char>,
    kind: Seq<char>,
) -> Seq<char> {
    "AVM2 "@ + class + "."@ + property + kind
}

fn render_method(prefix: &str, class: &str, method: &str, specifics: Option<&str>) -> (out: String)
    ensures
        out@ == method_description(prefix@, class@, method@, specifics.deep_view()),
{
    let mut out = String::from_str(prefix);
    out.append(class);
    out.append(".");
    out.append(method);
    out.append("()");
    match specifics {
        Some(details) => {
            out.append(" ");
            out.append(details);
        },
        None => {},
    }
    out
}

fn render_accessor(class: &str, property: &str, kind: &str) -> (out: String)
    ensures
        out@ == accessor_description(class@, property@, kind@),
{
    let mut out = String::from_str("AVM2 ");
    out.append(class);
    out.append(".");
    out.append(property);
    out.append(kind);
    out
}

impl Stub {
    /// Renders the stub as a single line for a developer to read.
    ///
    /// The text fields are written out as they are, without escaping.
    pub fn to_string(&self) -> (out: String)
        ensures
            out@ == self@.description(),
    {
        match self {
            Stub::Avm1Method { class, method, specifics } => render_method(
                "AVM1 ",
                class,
                method,
                *specifics,
            ),
            Stub::Avm2Method { class, method, specifics } => render_method(
                "AVM2 ",
                text(class),
                text(method),
                optional_text(specifics),
            ),
            Stub::Avm2Getter { class, property } => render_accessor(
                text(class),
                text(property),
                " getter",
            ),
            Stub::Avm2Setter { class, property } => render_accessor(
                text(class),
                text(property),
                " setter",
            ),
            Stub::Avm2Constructor { class } => {
                let mut out = String::from_str("AVM2 ");
                out.append(class);
                out.append(" constructor");
                out
            },
            Stub::Other(description) => String::from_str(text(description)),
        }
    }
}

impl Clone for Stub {
    /// The copy is the same stub: every field holds what it held.
    fn clone(&self) -> (copy: Self)
        ensures
            copy == *self,
    {
        match self {
            Stub::Avm1Method { class, method, specifics } => Stub::Avm1Method {
                class: *class,
                method: *method,
                specifics: *specifics,
            },
            Stub::Avm2Method { class, method, specifics } => Stub::Avm2Method {
                class: copy_text(class),
                method: copy_text(method),
                specifics: match specifics {
                    Some(details) => Some(copy_text(details)),
                    None => None,
                },
            },
            Stub::Avm2Getter { class, property } => Stub::Avm2Getter {
                class: copy_text(class),
                property: copy_text(property),
            },
            Stub::Avm2Setter { class, property } => Stub::Avm2Setter {
                class: copy_text(class),
                property: copy_text(property),
            },
            Stub::Avm2Constructor { class } => Stub::Avm2Constructor { class: *class },
            Stub::Other(description) => Stub::Other(copy_text(description)),
        }
    }
}

impl PartialEq for Stub {
    /// Two stubs are equal exactly when they are the same variant and every
    /// field holds the same characters.
    fn eq(&self, other: &Self) -> (same: bool) {
        match (self, other) {
            (
                Stub::Avm1Method { class, method, specifics },
                Stub::Avm1Method { class: class2, method: method2, specifics: specifics2 },
            ) => same_text(class, class2) && same_text(method, method2) && same_optional_text(
                *specifics,
                *specifics2,
            ),
            (
                Stub::Avm2Method { class, method, specifics },
                Stub::Avm2Method { class: class2, method: method2, specifics: specifics2 },
            ) => same_text(text(class), text(class2)) && same_text(text(method), text(method2))
                && same_optional_text(optional_text(specifics), optional_text(specifics2)),
            (
                Stub::Avm2Getter { class, property },
                Stub::Avm2Getter { class: class2, property: property2 },
            ) => same_text(text(class), text(class2)) && same_text(text(property), text(property2)),
            (
                Stub::Avm2Setter { class, property },
                Stub::Avm2Setter { class: class2, property: property2 },
            ) => same_text(text(class), text(class2)) && same_text(text(property), text(property2)),
            (Stub::Avm2Constructor { class }, Stub::Avm2Constructor { class: class2 }) => same_text(
                class,
                class2,
            ),
            (Stub::Other(description), Stub::Other(description2)) => same_text(
                text(description),
                text(description2),
            ),
            _ => false,
        }
    }
}

impl vstd::std_specs::cmp::PartialEqSpecImpl for Stub {
    open spec fn obeys_eq_spec() -> bool {
        true
    }

    open spec fn eq_spec(&self, other: &Self) -> bool {
        self@ == other@
    }
}

} // verus!
