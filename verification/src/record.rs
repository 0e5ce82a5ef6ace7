use vstd::prelude::*;

verus! {

/// The DNS record types the proxy lets a client change.
#[allow(non_camel_case_types)]
#[derive(Clone, Copy, Debug, PartialEq, Eq, Structural)]
pub enum RecordKind {
    A,
    AAAA,
    TXT,
    SRV,
    CNAME,
}

/// The content a record is to hold: its type and the value as the client sent it.
#[derive(Debug)]
pub struct RecordContent {
    pub kind: RecordKind,
    pub value: String,
}

/// A DNS record of a zone as the Cloudflare API lists it.
#[derive(Debug)]
pub struct DnsRecordInfo {
    pub id: String,
    pub name: String,
    pub proxied: bool,
    pub ttl: u32,
}

/// What `str::to_uppercase` returns for `text`: its Unicode uppercase mapping.
pub uninterp spec fn unicode_uppercase(text: Seq<char>) -> Seq<char>;

/// Every character of `text` is ASCII.
pub open spec fn ascii_text(text: Seq<char>) -> bool {
    forall|i: int| 0 <= i < text.len() ==> (#[trigger] text[i] as u32) < 128
}

/// The ASCII uppercase of a character: `a` to `z` become `A` to `Z`, others stay.
pub open spec fn ascii_upper_char(c: char) -> char {
    if 97 <= (c as u32) <= 122 {
        ((c as u32) - 32) as char
    } else {
        c
    }
}

/// The ASCII uppercase of a text, character by character.
pub open spec fn ascii_upper(text: Seq<char>) -> Seq<char> {
    text.map_values(|c: char| ascii_upper_char(c))
}

/// Calls `str::to_uppercase`. Trusted: the result is the Unicode uppercase mapping of `text`,
/// which is not written out here but named `unicode_uppercase`; on ASCII text that mapping
/// turns `a` to `z` into `A` to `Z` and keeps every other character.
#[verifier::external_body]
pub(crate) fn to_uppercase(text: &str) -> (r: String)
    ensures
        r@ == unicode_uppercase(text@),
        ascii_text(text@) ==> r@ == ascii_upper(text@),
{
    text.to_uppercase()
}

/// The record type that an uppercase type name stands for.
pub open spec fn kind_named(name: Seq<char>) -> Option<RecordKind> {
    if name == "A"@ {
        Some(RecordKind::A)
    } else if name == "AAAA"@ {
        Some(RecordKind::AAAA)
    } else if name == "TXT"@ {
        Some(RecordKind::TXT)
    } else if name == "SRV"@ {
        Some(RecordKind::SRV)
    } else if name == "CNAME"@ {
        Some(RecordKind::CNAME)
    } else {
        None
    }
}

/// The record type named by `upper`, an already uppercased type name; `None` for a type the
/// proxy does not handle.
pub fn classify_record_type(upper: &str) -> (r: Option<RecordKind>)
    ensures
        r == kind_named(upper@),
        r == Some(RecordKind::A) <==> upper@ == "A"@,
        r == Some(RecordKind::AAAA) <==> upper@ == "AAAA"@,
        r == Some(RecordKind::TXT) <==> upper@ == "TXT"@,
        r == Some(RecordKind::SRV) <==> upper@ == "SRV"@,
        r == Some(RecordKind::CNAME) <==> upper@ == "CNAME"@,
{
    proof {
        reveal_strlit("A");
        reveal_strlit("AAAA");
        reveal_strlit("TXT");
        reveal_strlit("SRV");
        reveal_strlit("CNAME");
        assert("A"@.len() == 1);
        assert("AAAA"@.len() == 4);
        assert("TXT"@.len() == 3 && "TXT"@[0] == 'T');
        assert("SRV"@.len() == 3 && "SRV"@[0] == 'S');
        assert("CNAME"@.len() == 5);
    }
    let name = String::from_str(upper);
    if name == String::from_str("A") {
        Some(RecordKind::A)
    } else if name == String::from_str("AAAA") {
        Some(RecordKind::AAAA)
    } else if name == String::from_str("TXT") {
        Some(RecordKind::TXT)
    } else if name == String::from_str("SRV") {
        Some(RecordKind::SRV)
    } else if name == String::from_str("CNAME") {
        Some(RecordKind::CNAME)
    } else {
        None
    }
}

/// The record type a client asked for, its name compared without regard to case (it is
/// uppercased first); `None` for a type the proxy does not handle.
pub fn record_kind(rectype: &str) -> (r: Option<RecordKind>)
    ensures
        r == kind_named(unicode_uppercase(rectype@)),
        ascii_text(rectype@) ==> r == kind_named(ascii_upper(rectype@)),
{
    let upper = to_uppercase(rectype);
    classify_record_type(upper.as_str())
}

/// Two ASCII type names that differ only in the case of their letters name the same record
/// type, or both none.
pub proof fn lemma_type_name_ignores_case(a: Seq<char>, b: Seq<char>)
    requires
        ascii_text(a),
        ascii_text(b),
        a.len() == b.len(),
        forall|i: int| 0 <= i < a.len() ==> ascii_upper_char(#[trigger] a[i]) == ascii_upper_char(b[i]),
    ensures
        kind_named(ascii_upper(a)) == kind_named(ascii_upper(b)),
{
    assert(ascii_upper(a) =~= ascii_upper(b));
}

/// What `first_named` means: `records[i]` has exactly the name `name`, and no record before it
/// has that name.
pub proof fn lemma_first_named_meaning(records: Seq<DnsRecordInfo>, name: Seq<char>, i: int)
    ensures
        first_named(records, name, i) <==> (0 <= i < records.len() && records[i].name@ == name && forall|j: int|
            0 <= j < i ==> (#[trigger] records[j]).name@ != name),
{
}

/// `records[i]` is the first record of `records` named `name`.
pub open spec fn first_named(records: Seq<DnsRecordInfo>, name: Seq<char>, i: int) -> bool {
    &&& 0 <= i < records.len()
    &&& records[i].name@ == name
    &&& forall|j: int| 0 <= j < i ==> (#[trigger] records[j]).name@ != name
}

/// The index of the first record named `name`, or `None` when no record has that name.
pub fn find_record(records: &Vec<DnsRecordInfo>, name: &str) -> (r: Option<usize>)
    ensures
        r matches Some(i) ==> first_named(records@, name@, i as int),
        r is None ==> forall|j: int| 0 <= j < records@.len() ==> (#[trigger] records@[j]).name@ != name@,
        r matches Some(i) ==> i < records@.len() && records@[i as int].name@ == name@ && forall|j: int|
            0 <= j < i ==> (#[trigger] records@[j]).name@ != name@,
{
    let wanted = String::from_str(name);
    let n = records.len();
    let mut i: usize = 0;
    while i < n
        invariant
            n == records@.len(),
            i <= n,
            wanted@ == name@,
            forall|j: int| 0 <= j < i ==> (#[trigger] records@[j]).name@ != name@,
        decreases n - i,
    {
        if records[i].name == wanted {
            return Some(i);
        }
        i = i + 1;
    }
    None
}

} // verus!
