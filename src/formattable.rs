//! The descriptions that values can be formatted with.
use vstd::prelude::*;

use crate::error::{outcome_matches, FormatError};
use crate::iso8601::{iso_output, Iso8601};
use crate::item::{all_ignorable, sequence_fmt_ignore, sequence_format_into, sequence_spec_output, FormatItem};
use crate::value::{Date, Time, UtcOffset};
use crate::well_known::{rfc2822_output, rfc3339_output, Rfc2822, Rfc3339};

verus! {

/// The text that lossy UTF-8 decoding makes of some bytes.
pub uninterp spec fn lossy_text(b: Seq<u8>) -> Seq<char>;

/// The bytes are all ASCII.
pub open spec fn is_ascii_bytes(b: Seq<u8>) -> bool {
    forall|i: int| 0 <= i < b.len() ==> #[trigger] b[i] < 128
}

/// The characters that ASCII bytes stand for.
pub open spec fn ascii_chars(b: Seq<u8>) -> Seq<char> {
    Seq::new(b.len(), |i: int| b[i] as char)
}

/// Relies on `String::from_utf8_lossy`: valid UTF-8, ASCII in particular, is
/// kept as it is; other bytes are replaced, depending on the bytes alone.
#[verifier::external_body]
fn text_of(b: &Vec<u8>) -> (r: String)
    ensures
        r@ == lossy_text(b@),
        is_ascii_bytes(b@) ==> r@ == ascii_chars(b@),
{
    String::from_utf8_lossy(b.as_slice()).into_owned()
}

/// A description that values can be formatted with.
pub trait Sealed {
    /// Whether the description carries nothing but default values, so that
    /// an enclosing optional item may leave it out.
    spec fn spec_ignorable(&self, time: Option<Time>, offset: Option<UtcOffset>) -> bool;

    /// What the description renders the values to, or why it cannot.
    spec fn spec_output(
        &self,
        optional: bool,
        date: Option<Date>,
        time: Option<Time>,
        offset: Option<UtcOffset>,
    ) -> Result<Seq<u8>, FormatError>;

    /// Whether the description is meant for formatting at all.
    spec fn can_format(&self) -> bool;

    /// Whether the description is meant for formatting at all.
    fn is_for_formatting(&self) -> (r: bool)
        ensures
            r == self.can_format(),
    ;

    /// Can the item be ignored when formatting an optional value.
    fn fmt_ignore(&self, date: Option<Date>, time: Option<Time>, offset: Option<UtcOffset>) -> (r:
        bool)
        ensures
            r == self.spec_ignorable(time, offset),
    ;

    /// Format the item into the provided output, returning the number of bytes written.
    fn format_into(
        &self,
        out: &mut Vec<u8>,
        optional: bool,
        date: Option<Date>,
        time: Option<Time>,
        offset: Option<UtcOffset>,
    ) -> (r: Result<usize, FormatError>)
        requires
            self.can_format(),
        ensures
            outcome_matches(self.spec_output(optional, date, time, offset), old(out)@, final(out)@, r),
    ;

    /// Format the item directly to a `String`.
    fn format(&self, date: Option<Date>, time: Option<Time>, offset: Option<UtcOffset>) -> (r: Result<
        String,
        FormatError,
    >)
        requires
            self.can_format(),
        ensures
            match self.spec_output(false, date, time, offset) {
                Ok(b) => r matches Ok(s) && s@ == lossy_text(b) && (is_ascii_bytes(b) ==> s@ == ascii_chars(b)),
                Err(e) => r == Err::<String, FormatError>(e),
            },
    {
        let mut buf: Vec<u8> = Vec::new();
        match self.format_into(&mut buf, false, date, time, offset) {
            Err(e) => Err(e),
            Ok(_) => {
                assert(buf@ =~= self.spec_output(false, date, time, offset)->Ok_0);
                Ok(text_of(&buf))
            },
        }
    }
}

/// A format description: a tree of items, a sequence of them, or a
/// well-known format.
pub trait Formattable: Sealed {

}

impl Sealed for FormatItem {
    open spec fn spec_ignorable(&self, time: Option<Time>, offset: Option<UtcOffset>) -> bool {
        FormatItem::spec_ignorable(*self, time, offset)
    }

    open spec fn spec_output(
        &self,
        optional: bool,
        date: Option<Date>,
        time: Option<Time>,
        offset: Option<UtcOffset>,
    ) -> Result<Seq<u8>, FormatError> {
        FormatItem::spec_output(*self, optional, date, time, offset)
    }

    open spec fn can_format(&self) -> bool {
        true
    }

    fn is_for_formatting(&self) -> (r: bool) {
        true
    }

    fn fmt_ignore(&self, date: Option<Date>, time: Option<Time>, offset: Option<UtcOffset>) -> (r:
        bool) {
        FormatItem::fmt_ignore(self, date, time, offset)
    }

    fn format_into(
        &self,
        out: &mut Vec<u8>,
        optional: bool,
        date: Option<Date>,
        time: Option<Time>,
        offset: Option<UtcOffset>,
    ) -> (r: Result<usize, FormatError>) {
        FormatItem::format_into(self, out, optional, date, time, offset)
    }
}

impl Sealed for Vec<FormatItem> {
    open spec fn spec_ignorable(&self, time: Option<Time>, offset: Option<UtcOffset>) -> bool {
        all_ignorable(self@, time, offset)
    }

    open spec fn spec_output(
        &self,
        optional: bool,
        date: Option<Date>,
        time: Option<Time>,
        offset: Option<UtcOffset>,
    ) -> Result<Seq<u8>, FormatError> {
        sequence_spec_output(self@, optional, date, time, offset)
    }

    open spec fn can_format(&self) -> bool {
        true
    }

    fn is_for_formatting(&self) -> (r: bool) {
        true
    }

    fn fmt_ignore(&self, date: Option<Date>, time: Option<Time>, offset: Option<UtcOffset>) -> (r:
        bool) {
        sequence_fmt_ignore(self, date, time, offset)
    }

    fn format_into(
        &self,
        out: &mut Vec<u8>,
        optional: bool,
        date: Option<Date>,
        time: Option<Time>,
        offset: Option<UtcOffset>,
    ) -> (r: Result<usize, FormatError>) {
        sequence_format_into(self, out, optional, date, time, offset)
    }
}

impl Sealed for Rfc2822 {
    open spec fn spec_ignorable(&self, time: Option<Time>, offset: Option<UtcOffset>) -> bool {
        false
    }

    open spec fn spec_output(
        &self,
        optional: bool,
        date: Option<Date>,
        time: Option<Time>,
        offset: Option<UtcOffset>,
    ) -> Result<Seq<u8>, FormatError> {
        rfc2822_output(date, time, offset)
    }

    open spec fn can_format(&self) -> bool {
        true
    }

    fn is_for_formatting(&self) -> (r: bool) {
        true
    }

    fn fmt_ignore(&self, date: Option<Date>, time: Option<Time>, offset: Option<UtcOffset>) -> (r:
        bool) {
        false
    }

    fn format_into(
        &self,
        out: &mut Vec<u8>,
        optional: bool,
        date: Option<Date>,
        time: Option<Time>,
        offset: Option<UtcOffset>,
    ) -> (r: Result<usize, FormatError>) {
        Rfc2822::format_into(self, out, date, time, offset)
    }
}

impl Sealed for Rfc3339 {
    open spec fn spec_ignorable(&self, time: Option<Time>, offset: Option<UtcOffset>) -> bool {
        false
    }

    open spec fn spec_output(
        &self,
        optional: bool,
        date: Option<Date>,
        time: Option<Time>,
        offset: Option<UtcOffset>,
    ) -> Result<Seq<u8>, FormatError> {
        rfc3339_output(date, time, offset)
    }

    open spec fn can_format(&self) -> bool {
        true
    }

    fn is_for_formatting(&self) -> (r: bool) {
        true
    }

    fn fmt_ignore(&self, date: Option<Date>, time: Option<Time>, offset: Option<UtcOffset>) -> (r:
        bool) {
        false
    }

    fn format_into(
        &self,
        out: &mut Vec<u8>,
        optional: bool,
        date: Option<Date>,
        time: Option<Time>,
        offset: Option<UtcOffset>,
    ) -> (r: Result<usize, FormatError>) {
        Rfc3339::format_into(self, out, date, time, offset)
    }
}

impl Sealed for Iso8601 {
    open spec fn spec_ignorable(&self, time: Option<Time>, offset: Option<UtcOffset>) -> bool {
        false
    }

    open spec fn spec_output(
        &self,
        optional: bool,
        date: Option<Date>,
        time: Option<Time>,
        offset: Option<UtcOffset>,
    ) -> Result<Seq<u8>, FormatError> {
        iso_output(self.spec_config(), date, time, offset)
    }

    open spec fn can_format(&self) -> bool {
        self.spec_config().formats_anything()
    }

    fn is_for_formatting(&self) -> (r: bool) {
        self.formats_anything()
    }

    fn fmt_ignore(&self, date: Option<Date>, time: Option<Time>, offset: Option<UtcOffset>) -> (r:
        bool) {
        false
    }

    fn format_into(
        &self,
        out: &mut Vec<u8>,
        optional: bool,
        date: Option<Date>,
        time: Option<Time>,
        offset: Option<UtcOffset>,
    ) -> (r: Result<usize, FormatError>) {
        Iso8601::format_into(self, out, date, time, offset)
    }
}

impl Formattable for FormatItem {

}

impl Formattable for Vec<FormatItem> {

}

impl Formattable for Rfc2822 {

}

impl Formattable for Rfc3339 {

}

impl Formattable for Iso8601 {

}

} // verus!
