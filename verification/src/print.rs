//! Formatted output: a formatting request is rendered to text and the text
//! is written to the console.

use vstd::prelude::*;
use vstd::string::StringSliceAdditionalSpecFns;
use crate::writer::Writer;

verus! {

/// `core::fmt::Arguments`: a formatting request, a template with the values
/// to put into it. It is carried through as it is.
#[verifier::external_type_specification]
#[verifier::external_body]
pub struct ExArguments<'a>(core::fmt::Arguments<'a>);

/// `core::fmt::Error`: the failure that formatting reports. It is carried
/// through as it is.
#[verifier::external_type_specification]
#[verifier::external_body]
pub struct ExFmtError(core::fmt::Error);

/// `core::fmt::write` with a `String` as its output: the text that the
/// request produces is appended to `text`, up to the point where formatting
/// stopped, and the result tells whether formatting ran to its end. Nothing
/// is claimed of either: both are up to the formatting code of the values in
/// the request.
#[verifier::external_body]
fn render_into(text: &mut String, args: core::fmt::Arguments<'_>) -> (outcome: Result<
    (),
    core::fmt::Error,
>) {
    core::fmt::write(text, args)
}

impl Writer {
    /// Writes `s` as [`Writer::write_string`] does. It never fails.
    pub fn write_str(&mut self, s: &str) -> (outcome: Result<(), core::fmt::Error>)
        ensures
            outcome is Ok,
            final(self)@ == old(self)@.write_string(s.spec_bytes()),
            final(self)@.wf(),
    {
        self.write_string(s);
        Ok(())
    }
}

/// Writes the text that a formatting request was rendered to, and hands on
/// how rendering ended: the text is written in full whether or not rendering
/// ran to its end.
pub fn print_rendered(
    writer: &mut Writer,
    text: &str,
    formatted: Result<(), core::fmt::Error>,
) -> (outcome: Result<(), core::fmt::Error>)
    ensures
        final(writer)@ == old(writer)@.write_string(text.spec_bytes()),
        final(writer)@.wf(),
        outcome == formatted,
{
    match writer.write_str(text) {
        Ok(()) => formatted,
        Err(e) => Err(e),
    }
}

/// Renders `args` and writes the text to `writer`, as [`print_rendered`]
/// does; the result is what rendering reported. Which text a request renders
/// to is up to the values in it, so all that holds of every request is that
/// the console ends in a state that writing some text leads to.
pub fn _print(writer: &mut Writer, args: core::fmt::Arguments<'_>) -> (outcome: Result<
    (),
    core::fmt::Error,
>)
    ensures
        exists|text: Seq<u8>| final(writer)@ == old(writer)@.write_string(text),
        final(writer)@.wf(),
{
    let mut text = String::new();
    let formatted = render_into(&mut text, args);
    print_rendered(writer, text.as_str(), formatted)
}

} // verus!
