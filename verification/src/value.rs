//! Port values of any width.

use vstd::prelude::*;
use vstd::string::*;

use crate::text;
use crate::types;
use crate::wide::{self, WideOut};

verus! {

/// See [`types`].
#[derive(PartialEq, Eq, Hash, Debug)]
pub enum VerilatorValue<'a> {
    CData(types::CData),
    SData(types::SData),
    IData(types::IData),
    QData(types::QData),
    WDataInP(&'a [types::WData]),
    WDataOutP(Box<[types::WData]>),
}

/// What a value holds.
pub ghost enum ValueView {
    CData(types::CData),
    SData(types::SData),
    IData(types::IData),
    QData(types::QData),
    WDataInP(Seq<types::WData>),
    WDataOutP(Seq<types::WData>),
}

impl<'a> View for VerilatorValue<'a> {
    type V = ValueView;

    open spec fn view(&self) -> ValueView {
        match self {
            VerilatorValue::CData(data) => ValueView::CData(*data),
            VerilatorValue::SData(data) => ValueView::SData(*data),
            VerilatorValue::IData(data) => ValueView::IData(*data),
            VerilatorValue::QData(data) => ValueView::QData(*data),
            VerilatorValue::WDataInP(words) => ValueView::WDataInP(words@),
            VerilatorValue::WDataOutP(words) => ValueView::WDataOutP(words@),
        }
    }
}

/// The maximum number of bits that a value takes up.
pub open spec fn value_width(value: ValueView) -> nat {
    match value {
        ValueView::CData(_) => 8,
        ValueView::SData(_) => 16,
        ValueView::IData(_) => 32,
        ValueView::QData(_) => 64,
        ValueView::WDataInP(words) => words.len() * 32,
        ValueView::WDataOutP(words) => words.len() * 32,
    }
}

impl<'a> VerilatorValue<'a> {
    /// The maximum number of bits this value takes up.
    pub fn width(&self) -> (bits: usize)
        requires
            value_width(self@) <= usize::MAX,
        ensures
            bits == value_width(self@),
    {
        match self {
            VerilatorValue::CData(_) => 8,
            VerilatorValue::SData(_) => 16,
            VerilatorValue::IData(_) => 32,
            VerilatorValue::QData(_) => 64,
            VerilatorValue::WDataInP(values) => {
                wide::compute_approx_width_from_wdata_word_count(values.len())
            },
            VerilatorValue::WDataOutP(values) => {
                wide::compute_approx_width_from_wdata_word_count(values.len())
            },
        }
    }
}

/// Turns words into a boxed slice of the same words with [`Vec::into_boxed_slice`].
#[verifier::external_body]
fn boxed(words: Vec<types::WData>) -> (slice: Box<[types::WData]>)
    ensures
        slice@ == words@,
{
    words.into_boxed_slice()
}

impl<'a> VerilatorValue<'a> {
    /// An owned wide value with these words.
    pub fn wide(words: Vec<types::WData>) -> (value: Self)
        ensures
            value@ == ValueView::WDataOutP(words@),
    {
        VerilatorValue::WDataOutP(boxed(words))
    }
}

impl<'a> Clone for VerilatorValue<'a> {
    fn clone(&self) -> (copy: Self)
        ensures
            copy@ == self@,
    {
        match self {
            VerilatorValue::CData(data) => VerilatorValue::CData(*data),
            VerilatorValue::SData(data) => VerilatorValue::SData(*data),
            VerilatorValue::IData(data) => VerilatorValue::IData(*data),
            VerilatorValue::QData(data) => VerilatorValue::QData(*data),
            VerilatorValue::WDataInP(words) => VerilatorValue::WDataInP(words),
            VerilatorValue::WDataOutP(words) => VerilatorValue::wide(
                vstd::slice::slice_to_vec(words),
            ),
        }
    }
}

/// The rendering of a value: a decimal number up to 64 bits, a placeholder beyond.
pub open spec fn value_text(value: ValueView) -> Seq<char> {
    match value {
        ValueView::CData(data) => text::decimal(data as nat),
        ValueView::SData(data) => text::decimal(data as nat),
        ValueView::IData(data) => text::decimal(data as nat),
        ValueView::QData(data) => text::decimal(data as nat),
        ValueView::WDataInP(_) => "wide (fmt is todo)"@,
        ValueView::WDataOutP(_) => "wide (fmt is todo)"@,
    }
}

impl<'a> VerilatorValue<'a> {
    /// The rendering of the value.
    pub fn text(&self) -> (rendered: String)
        ensures
            rendered@ == value_text(self@),
    {
        let mut rendered = String::new();
        match self {
            VerilatorValue::CData(data) => text::push_decimal(&mut rendered, *data as u64),
            VerilatorValue::SData(data) => text::push_decimal(&mut rendered, *data as u64),
            VerilatorValue::IData(data) => text::push_decimal(&mut rendered, *data as u64),
            VerilatorValue::QData(data) => text::push_decimal(&mut rendered, *data),
            VerilatorValue::WDataInP(_) => rendered.append("wide (fmt is todo)"),
            VerilatorValue::WDataOutP(_) => rendered.append("wide (fmt is todo)"),
        }
        proof {
            assert(rendered@ =~= value_text(self@));
        }
        rendered
    }
}

impl<'a> From<types::CData> for VerilatorValue<'a> {
    fn from(value: types::CData) -> (converted: Self) {
        VerilatorValue::CData(value)
    }
}

impl<'a> vstd::std_specs::convert::FromSpecImpl<types::CData> for VerilatorValue<'a> {
    open spec fn obeys_from_spec() -> bool {
        true
    }

    open spec fn from_spec(value: types::CData) -> Self {
        VerilatorValue::CData(value)
    }
}

impl<'a> From<types::SData> for VerilatorValue<'a> {
    fn from(value: types::SData) -> (converted: Self) {
        VerilatorValue::SData(value)
    }
}

impl<'a> vstd::std_specs::convert::FromSpecImpl<types::SData> for VerilatorValue<'a> {
    open spec fn obeys_from_spec() -> bool {
        true
    }

    open spec fn from_spec(value: types::SData) -> Self {
        VerilatorValue::SData(value)
    }
}

impl<'a> From<types::IData> for VerilatorValue<'a> {
    fn from(value: types::IData) -> (converted: Self) {
        VerilatorValue::IData(value)
    }
}

impl<'a> vstd::std_specs::convert::FromSpecImpl<types::IData> for VerilatorValue<'a> {
    open spec fn obeys_from_spec() -> bool {
        true
    }

    open spec fn from_spec(value: types::IData) -> Self {
        VerilatorValue::IData(value)
    }
}

impl<'a> From<types::QData> for VerilatorValue<'a> {
    fn from(value: types::QData) -> (converted: Self) {
        VerilatorValue::QData(value)
    }
}

impl<'a> vstd::std_specs::convert::FromSpecImpl<types::QData> for VerilatorValue<'a> {
    open spec fn obeys_from_spec() -> bool {
        true
    }

    open spec fn from_spec(value: types::QData) -> Self {
        VerilatorValue::QData(value)
    }
}

impl<'a, const WORDS: usize> From<&'a [types::WData; WORDS]> for VerilatorValue<'a> {
    fn from(value: &'a [types::WData; WORDS]) -> (converted: Self)
        ensures
            converted@ == ValueView::WDataInP(value@),
    {
        VerilatorValue::WDataInP(value.as_slice())
    }
}

impl<'a, const WORDS: usize> vstd::std_specs::convert::FromSpecImpl<&'a [types::WData; WORDS]> for VerilatorValue<'a> {
    open spec fn obeys_from_spec() -> bool {
        false
    }

    open spec fn from_spec(value: &'a [types::WData; WORDS]) -> Self {
        arbitrary()
    }
}

impl<'a, const WORDS: usize> From<[types::WData; WORDS]> for VerilatorValue<'a> {
    fn from(value: [types::WData; WORDS]) -> (converted: Self)
        ensures
            converted@ == ValueView::WDataOutP(value@),
    {
        VerilatorValue::wide(vstd::slice::slice_to_vec(value.as_slice()))
    }
}

impl<'a, const WORDS: usize> vstd::std_specs::convert::FromSpecImpl<[types::WData; WORDS]> for VerilatorValue<'a> {
    open spec fn obeys_from_spec() -> bool {
        false
    }

    open spec fn from_spec(value: [types::WData; WORDS]) -> Self {
        arbitrary()
    }
}

impl<'a, const WORDS: usize> From<WideOut<WORDS>> for VerilatorValue<'a> {
    fn from(value: WideOut<WORDS>) -> (converted: Self)
        ensures
            converted@ == ValueView::WDataOutP(value@),
    {
        VerilatorValue::wide(vstd::slice::slice_to_vec(value.value().as_slice()))
    }
}

impl<'a, const WORDS: usize> vstd::std_specs::convert::FromSpecImpl<WideOut<WORDS>> for VerilatorValue<'a> {
    open spec fn obeys_from_spec() -> bool {
        false
    }

    open spec fn from_spec(value: WideOut<WORDS>) -> Self {
        arbitrary()
    }
}

/// A value holds the number or the words that it was made of, and its width is that of its C type,
/// or of its words at 32 bits each.
pub proof fn law_value_holds_what_it_was_made_of(value: VerilatorValue)
    ensures
        match value {
            VerilatorValue::CData(data) => value@ == ValueView::CData(data) && value_width(value@)
                == 8,
            VerilatorValue::SData(data) => value@ == ValueView::SData(data) && value_width(value@)
                == 16,
            VerilatorValue::IData(data) => value@ == ValueView::IData(data) && value_width(value@)
                == 32,
            VerilatorValue::QData(data) => value@ == ValueView::QData(data) && value_width(value@)
                == 64,
            VerilatorValue::WDataInP(words) => value@ == ValueView::WDataInP(words@)
                && value_width(value@) == 32 * words@.len(),
            VerilatorValue::WDataOutP(words) => value@ == ValueView::WDataOutP(words@)
                && value_width(value@) == 32 * words@.len(),
        },
{
}

/// A value of up to 64 bits is written as its number, whatever its C type, and parses back to it.
pub proof fn law_rendered_value_is_its_number(value: ValueView, n: u64)
    requires
        match value {
            ValueView::CData(data) => data == n,
            ValueView::SData(data) => data == n,
            ValueView::IData(data) => data == n,
            ValueView::QData(data) => data == n,
            _ => false,
        },
    ensures
        value_text(value) == text::decimal(n as nat),
        n <= usize::MAX ==> text::parsed_usize(value_text(value)) == Some(n as usize),
{
    if n <= usize::MAX {
        text::law_number_round_trip(n as usize, 0);
    }
}

} // verus!
