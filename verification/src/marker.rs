//! The marker texts that carry safety annotations, and how they are read.
//!
//! A declaration is marked by an attribute whose text holds `rt:realtime` or
//! `rt:non_realtime`. A `let` statement may carry an override of the form
//! `rt:call-info:<name>:<tag>`, where `<name>` is `closure` or names the
//! target of a function reference.

use vstd::prelude::*;
use vstd::string::{is_ascii, is_ascii_spec_bytes, StringSliceAdditionalSpecFns};
use crate::tag::SafetyTag;
use crate::text::{
    bytes_eq, contains, contains_bytes, copy_range, find_byte, first_index_of, has_prefix,
    lemma_first_index_of_unique, occurs_at, starts_with,
};

verus! {

/// The byte that parts the fields of an override marker.
pub const FIELD_SEPARATOR: u8 = 58;

/// The text that marks a declaration as realtime.
pub open spec fn realtime_marker() -> Seq<u8> {
    "rt:realtime".spec_bytes()
}

/// The text that marks a declaration as non-realtime.
pub open spec fn non_realtime_marker() -> Seq<u8> {
    "rt:non_realtime".spec_bytes()
}

/// The text that every override marker begins with.
pub open spec fn call_info_prefix() -> Seq<u8> {
    "rt:call-info:".spec_bytes()
}

/// The discriminator of an override that classifies a closure.
pub open spec fn closure_discriminator() -> Seq<u8> {
    "closure".spec_bytes()
}

/// What one attribute text says of its declaration: the realtime marker is
/// looked for first.
pub open spec fn marker_of(attr: Seq<u8>) -> Option<bool> {
    if contains(attr, realtime_marker()) {
        Some(true)
    } else if contains(attr, non_realtime_marker()) {
        Some(false)
    } else {
        None
    }
}

/// What a list of attribute texts says of its declaration: the first text
/// that holds a marker decides.
pub open spec fn doc_marker(attrs: Seq<Vec<u8>>) -> Option<bool>
    decreases attrs.len(),
{
    if attrs.len() == 0 {
        None
    } else if marker_of(attrs[0]@) is Some {
        marker_of(attrs[0]@)
    } else {
        doc_marker(attrs.drop_first())
    }
}

/// The tag that the second field of an override stands for.
pub open spec fn tag_of_text(text: Seq<u8>) -> Option<SafetyTag> {
    if text == "realtime".spec_bytes() {
        Some(SafetyTag::Realtime)
    } else if text == "nonrealtime".spec_bytes() || text == "non_realtime".spec_bytes() {
        Some(SafetyTag::NonRealtime)
    } else {
        None
    }
}

/// The two fields of one override marker text, or `None` where the text is
/// no override or is malformed: it must begin with the prefix, hold exactly
/// one separator after it, and end in a known tag.
pub open spec fn parse_call_info(attr: Seq<u8>) -> Option<(Seq<u8>, SafetyTag)> {
    if !has_prefix(attr, call_info_prefix()) {
        None
    } else {
        let rest = attr.skip(call_info_prefix().len() as int);
        let colon = first_index_of(rest, FIELD_SEPARATOR);
        if colon >= rest.len() {
            None
        } else {
            match tag_of_text(rest.skip(colon + 1)) {
                Some(tag) => Some((rest.take(colon), tag)),
                None => None,
            }
        }
    }
}

/// The override that a list of attribute texts carries: the first text that
/// begins with the prefix decides, and a malformed one counts as absent.
pub open spec fn call_info(attrs: Seq<Vec<u8>>) -> Option<(Seq<u8>, SafetyTag)>
    decreases attrs.len(),
{
    if attrs.len() == 0 {
        None
    } else if has_prefix(attrs[0]@, call_info_prefix()) {
        parse_call_info(attrs[0]@)
    } else {
        call_info(attrs.drop_first())
    }
}

/// An override read from a `let` statement.
#[derive(Debug)]
pub struct CallInfo {
    /// The discriminator: `closure`, or the name of a function-reference target.
    pub name: Vec<u8>,
    /// The classification that the override gives.
    pub tag: SafetyTag,
}

impl CallInfo {
    /// Whether the override classifies a closure.
    pub open spec fn spec_is_closure(&self) -> bool {
        self.name@ == closure_discriminator()
    }

    /// Whether the override classifies a closure.
    pub fn is_closure(&self) -> (closure: bool)
        ensures
            closure == self.spec_is_closure(),
    {
        bytes_eq(self.name.as_slice(), "closure".as_bytes())
    }
}

/// Reads the safety marker of one attribute text.
pub fn marker_in(attr: &[u8]) -> (marker: Option<bool>)
    ensures
        marker == marker_of(attr@),
{
    if contains_bytes(attr, "rt:realtime".as_bytes()) {
        Some(true)
    } else if contains_bytes(attr, "rt:non_realtime".as_bytes()) {
        Some(false)
    } else {
        None
    }
}

/// Reads the safety marker of a declaration from its attribute texts:
/// `Some(true)` for realtime, `Some(false)` for non-realtime, `None` where no
/// text holds a marker.
pub fn doc_marker_is_realtime(attrs: &Vec<Vec<u8>>) -> (marker: Option<bool>)
    ensures
        marker == doc_marker(attrs@),
{
    let mut i: usize = 0;
    assert(attrs@.skip(0) =~= attrs@);
    while i < attrs.len()
        invariant
            i <= attrs.len(),
            doc_marker(attrs@) == doc_marker(attrs@.skip(i as int)),
        decreases attrs.len() - i,
    {
        let found = marker_in(attrs[i].as_slice());
        proof {
            let tail = attrs@.skip(i as int);
            assert(tail[0] == attrs@[i as int]);
            assert(tail.drop_first() =~= attrs@.skip(i + 1));
        }
        if found.is_some() {
            return found;
        }
        i += 1;
    }
    None
}

/// Reads the tag named by the second field of an override.
pub fn tag_in(text: &[u8]) -> (tag: Option<SafetyTag>)
    ensures
        tag == tag_of_text(text@),
{
    if bytes_eq(text, "realtime".as_bytes()) {
        Some(SafetyTag::Realtime)
    } else if bytes_eq(text, "nonrealtime".as_bytes()) || bytes_eq(
        text,
        "non_realtime".as_bytes(),
    ) {
        Some(SafetyTag::NonRealtime)
    } else {
        None
    }
}

/// Reads one attribute text as an override marker.
pub fn parse_call_info_text(attr: &[u8]) -> (info: Option<CallInfo>)
    ensures
        info is Some <==> parse_call_info(attr@) is Some,
        info matches Some(c) ==> parse_call_info(attr@) == Some((c.name@, c.tag)),
{
    let prefix = "rt:call-info:".as_bytes();
    if !starts_with(attr, prefix) {
        return None;
    }
    let start: usize = prefix.len();
    let rest = copy_range(attr, start, attr.len());
    assert(rest@ =~= attr@.skip(start as int));
    let colon: usize = find_byte(rest.as_slice(), FIELD_SEPARATOR);
    if colon >= rest.len() {
        return None;
    }
    let text = copy_range(rest.as_slice(), colon + 1, rest.len());
    assert(text@ =~= rest@.skip(colon + 1));
    match tag_in(text.as_slice()) {
        Some(tag) => {
            let name = copy_range(rest.as_slice(), 0, colon);
            assert(name@ =~= rest@.take(colon as int));
            Some(CallInfo { name, tag })
        },
        None => None,
    }
}

/// Reads the override marker of a `let` statement from its attribute texts.
pub fn extract_call_info_from_doc_attrs(attrs: &Vec<Vec<u8>>) -> (info: Option<CallInfo>)
    ensures
        info is Some <==> call_info(attrs@) is Some,
        info matches Some(c) ==> call_info(attrs@) == Some((c.name@, c.tag)),
{
    let mut i: usize = 0;
    assert(attrs@.skip(0) =~= attrs@);
    while i < attrs.len()
        invariant
            i <= attrs.len(),
            call_info(attrs@) == call_info(attrs@.skip(i as int)),
        decreases attrs.len() - i,
    {
        proof {
            let tail = attrs@.skip(i as int);
            assert(tail[0] == attrs@[i as int]);
            assert(tail.drop_first() =~= attrs@.skip(i + 1));
        }
        if starts_with(attrs[i].as_slice(), "rt:call-info:".as_bytes()) {
            return parse_call_info_text(attrs[i].as_slice());
        }
        i += 1;
    }
    None
}

/// The text that the `realtime` attribute attaches to a declaration.
pub fn realtime() -> (text: Vec<u8>)
    ensures
        text@ == realtime_marker(),
{
    let marker = "rt:realtime".as_bytes();
    let text = copy_range(marker, 0, marker.len());
    assert(text@ =~= marker@);
    text
}

/// The text that the `non_realtime` attribute attaches to a declaration.
pub fn non_realtime() -> (text: Vec<u8>)
    ensures
        text@ == non_realtime_marker(),
{
    let marker = "rt:non_realtime".as_bytes();
    let text = copy_range(marker, 0, marker.len());
    assert(text@ =~= marker@);
    text
}

/// The override text made of a discriminator and a tag text.
pub open spec fn call_info_marker(name: Seq<u8>, tag_text: Seq<u8>) -> Seq<u8> {
    call_info_prefix() + name + seq![FIELD_SEPARATOR] + tag_text
}

/// The text that the `rt_call_info` attribute attaches to a `let` statement
/// for the given discriminator and tag text.
pub fn rt_call_info(name: &[u8], tag_text: &[u8]) -> (text: Vec<u8>)
    ensures
        text@ == call_info_marker(name@, tag_text@),
{
    let prefix = "rt:call-info:".as_bytes();
    let mut text = copy_range(prefix, 0, prefix.len());
    assert(text@ =~= prefix@);
    let mut i: usize = 0;
    while i < name.len()
        invariant
            i <= name.len(),
            text@ == call_info_prefix() + name@.take(i as int),
        decreases name.len() - i,
    {
        text.push(name[i]);
        assert(text@ =~= call_info_prefix() + name@.take(i + 1));
        i += 1;
    }
    assert(name@.take(name@.len() as int) =~= name@);
    text.push(FIELD_SEPARATOR);
    let mut j: usize = 0;
    while j < tag_text.len()
        invariant
            j <= tag_text.len(),
            text@ == call_info_prefix() + name@ + seq![FIELD_SEPARATOR] + tag_text@.take(j as int),
        decreases tag_text.len() - j,
    {
        text.push(tag_text[j]);
        assert(text@ =~= call_info_prefix() + name@ + seq![FIELD_SEPARATOR] + tag_text@.take(
            j + 1,
        ));
        j += 1;
    }
    assert(tag_text@.take(tag_text@.len() as int) =~= tag_text@);
    text
}

/// An override text built from a discriminator without a separator and a
/// known tag text reads back as that discriminator and that tag.
pub proof fn lemma_call_info_round_trip(name: Seq<u8>, tag_text: Seq<u8>)
    requires
        !name.contains(FIELD_SEPARATOR),
        tag_of_text(tag_text) is Some,
    ensures
        parse_call_info(call_info_marker(name, tag_text)) == Some(
            (name, tag_of_text(tag_text)->0),
        ),
{
    let prefix = call_info_prefix();
    let attr = call_info_marker(name, tag_text);
    assert(attr.subrange(0, prefix.len() as int) =~= prefix);
    let rest = attr.skip(prefix.len() as int);
    assert(rest =~= name + seq![FIELD_SEPARATOR] + tag_text);
    assert forall|j: int| 0 <= j < name.len() implies rest[j] != FIELD_SEPARATOR by {
        assert(rest[j] == name[j]);
        assert(name.contains(name[j]));
    }
    assert(rest[name.len() as int] == FIELD_SEPARATOR);
    lemma_first_index_of_unique(rest, FIELD_SEPARATOR, name.len() as int);
    assert(rest.skip(name.len() as int + 1) =~= tag_text);
    assert(rest.take(name.len() as int) =~= name);
}

/// The bytes of a text of ASCII characters are its characters.
proof fn lemma_ascii_bytes(s: &str)
    requires
        is_ascii(s),
    ensures
        s.spec_bytes().len() == s@.len(),
        forall|i: int| 0 <= i < s@.len() ==> s.spec_bytes()[i] == s@[i] as u8,
{
    is_ascii_spec_bytes(s);
}

/// The two declaration markers exclude each other: a text that is the
/// realtime marker reads as realtime, and a text that is the non-realtime
/// marker reads as non-realtime.
pub proof fn lemma_markers_read_back()
    ensures
        marker_of(realtime_marker()) == Some(true),
        marker_of(non_realtime_marker()) == Some(false),
{
    reveal_strlit("rt:realtime");
    reveal_strlit("rt:non_realtime");
    lemma_ascii_bytes("rt:realtime");
    lemma_ascii_bytes("rt:non_realtime");
    let rt = realtime_marker();
    let nrt = non_realtime_marker();
    assert(rt.subrange(0, rt.len() as int) =~= rt);
    assert(occurs_at(rt, rt, 0));
    assert(nrt.subrange(0, nrt.len() as int) =~= nrt);
    assert(occurs_at(nrt, nrt, 0));
    assert forall|at: int| !occurs_at(nrt, rt, at) by {
        if occurs_at(nrt, rt, at) {
            let window = nrt.subrange(at, at + rt.len());
            assert(window[0] == nrt[at]);
            assert(window[3] == nrt[at + 3]);
        }
    }
}

/// The known tag texts and the closure discriminator: what each tag text
/// stands for, and that the discriminator holds no separator.
pub proof fn lemma_override_texts()
    ensures
        tag_of_text("realtime".spec_bytes()) == Some(SafetyTag::Realtime),
        tag_of_text("nonrealtime".spec_bytes()) == Some(SafetyTag::NonRealtime),
        tag_of_text("non_realtime".spec_bytes()) == Some(SafetyTag::NonRealtime),
        !closure_discriminator().contains(FIELD_SEPARATOR),
{
    reveal_strlit("realtime");
    reveal_strlit("nonrealtime");
    reveal_strlit("non_realtime");
    reveal_strlit("closure");
    lemma_ascii_bytes("realtime");
    lemma_ascii_bytes("nonrealtime");
    lemma_ascii_bytes("non_realtime");
    lemma_ascii_bytes("closure");
}

/// The override text that marks a closure as non-realtime, alone on a `let`
/// statement, is read as exactly that.
pub proof fn lemma_closure_override_reads_back(attrs: Seq<Vec<u8>>, tag_text: Seq<u8>)
    requires
        attrs.len() == 1,
        attrs[0]@ == call_info_marker(closure_discriminator(), tag_text),
        tag_of_text(tag_text) is Some,
    ensures
        call_info(attrs) == Some((closure_discriminator(), tag_of_text(tag_text)->0)),
{
    lemma_override_texts();
    lemma_call_info_round_trip(closure_discriminator(), tag_text);
    let prefix = call_info_prefix();
    assert(attrs[0]@.subrange(0, prefix.len() as int) =~= prefix);
}

} // verus!
