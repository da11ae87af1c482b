//! The `User-Agent` header: how its value is written on the wire and
//! read back.

use vstd::prelude::*;
use vstd::string::*;
use vstd::utf8::*;
use crate::text::{find_char, first_index, is_space, lemma_first_index, trim, trim_start, trimmed};

verus! {

/// A `User-Agent` header holding its label.
#[derive(Clone, PartialEq, Debug)]
pub struct UserAgentHeader(pub String);

/// The header line that carries `label`.
pub open spec fn header_line(label: Seq<char>) -> Seq<char> {
    "User-Agent: "@ + label
}

/// The label that a header line carries: what follows its first colon,
/// without surrounding white space.
pub open spec fn header_value(line: Seq<char>) -> Seq<char> {
    trimmed(line.subrange(first_index(line, ':') + 1, line.len() as int))
}

/// Calls `core::str::from_utf8`. It accepts exactly the byte strings that
/// are well-formed UTF-8, and then yields the text they encode.
#[verifier::external_body]
fn text_of_bytes(bytes: &[u8]) -> (text: Option<&str>)
    ensures
        text is Some <==> valid_utf8(bytes@),
        text matches Some(s) ==> s@ == decode_utf8(bytes@),
{
    core::str::from_utf8(bytes).ok()
}

impl UserAgentHeader {
    /// Name of the header.
    pub fn header_name() -> (name: &'static str)
        ensures
            name@ == "User-Agent"@,
    {
        "User-Agent"
    }

    /// The header's value as it is written after the name: the label,
    /// unchanged.
    pub fn fmt_header(&self) -> (value: String)
        ensures
            value@ == self.0@,
    {
        self.0.clone()
    }

    /// The whole header line: name, colon, one space, label.
    pub fn serialize(&self) -> (line: String)
        ensures
            line@ == header_line(self.0@),
    {
        let mut line = "User-Agent: ".to_owned();
        line.append(self.0.as_str());
        line
    }

    /// Reads a header line. A line without a colon is a defect of the
    /// caller, not an input.
    pub fn from_str(header: &str) -> (parsed: UserAgentHeader)
        requires
            header@.contains(':'),
        ensures
            parsed.0@ == header_value(header@),
    {
        let n: usize = header.unicode_len();
        match find_char(header, ':') {
            Some(colon) => {
                let value = header.substring_char(colon + 1, n);
                UserAgentHeader(trim(value).to_owned())
            },
            None => unreached(),
        }
    }

    /// Reads the header from its raw lines; only the first is looked at.
    /// Bytes that are not UTF-8, or a line without a colon, are a defect
    /// of the caller.
    pub fn parse_header(raw: &[Vec<u8>]) -> (parsed: UserAgentHeader)
        requires
            raw@.len() > 0,
            valid_utf8(raw@[0]@),
            decode_utf8(raw@[0]@).contains(':'),
        ensures
            parsed.0@ == header_value(decode_utf8(raw@[0]@)),
    {
        match text_of_bytes(raw[0].as_slice()) {
            Some(header) => UserAgentHeader::from_str(header),
            None => unreached(),
        }
    }
}

/// Reading a written header gives the label back, up to white space
/// around it: a label that neither starts nor ends with white space
/// survives unchanged.
pub proof fn written_header_reads_back(label: Seq<char>)
    ensures
        header_value(header_line(label)) == trimmed(label),
        label.len() == 0 || (!is_space(label.first()) && !is_space(label.last()))
            ==> header_value(header_line(label)) == label,
{
    reveal_strlit("User-Agent: ");
    let prefix = "User-Agent: "@;
    let line = header_line(label);
    assert(line[10] == ':');
    assert forall|j: int| 0 <= j < 10 implies line[j] != ':' by {
        assert(line[j] == prefix[j]);
    }
    lemma_first_index(line, ':', 10);
    let value = line.subrange(11, line.len() as int);
    assert(value.first() == ' ');
    assert(is_space(value.first()));
    assert(value.drop_first() =~= label);
    assert(trim_start(value) == trim_start(label));
}

} // verus!
