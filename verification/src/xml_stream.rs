//! A flattened view of an XML document as a sequence of events, produced
//! by the streaming reader of the `xml` crate. The engine's own logic —
//! the control-URL extractor and the SOAP response decoder — runs over
//! this sequence and is verified against it.
//!
//! The reader collects the whole event list before the engine walks it,
//! so memory is proportional to the document, not to its nesting depth;
//! the documents involved (device descriptions, SOAP bodies) are small.
//! A syntax error ends the list: the events read up to that point are
//! still handed out, so a decoder can use everything that precedes the
//! error.

use vstd::prelude::*;

verus! {

/// One event of an XML document stream, reduced to what the engine reads:
/// an element opening (with its local name), character data, an element
/// closing, or anything else (declarations, comments, CDATA, whitespace,
/// processing instructions), which the engine skips.
pub enum XmlEvent {
    /// An element opens; the payload is its local (unprefixed) name.
    Start(String),
    /// Character data between tags, unescaped.
    Text(String),
    /// An element closes.
    End,
    /// Any other event; the engine ignores these.
    Other,
}

/// The event sequence that the streaming XML reader yields for the given
/// document bytes before it stops: at the end of the document, or at the
/// first syntax error. The stream depends on the bytes alone.
pub uninterp spec fn xml_events_of(bytes: Seq<u8>) -> Seq<XmlEvent>;

/// Whether the streaming XML reader accepts the given document bytes in
/// full, reaching the end of the document without a syntax error. Like the
/// event stream, acceptance depends on the bytes alone.
pub uninterp spec fn xml_parses(bytes: Seq<u8>) -> bool;

/// Relies on `xml::reader::EventReader`: pulls every event of the document
/// and keeps element names (local part), character data and element ends;
/// the event stream is a function of the input bytes alone. The events
/// read before a syntax error are returned beside the error's rendered
/// message; on a document read in full the second component is `None`.
#[verifier::external_body]
pub fn read_xml_events(bytes: &[u8]) -> (r: (Vec<XmlEvent>, Option<String>))
    ensures
        r.0@ == xml_events_of(bytes@),
        r.1 is None <==> xml_parses(bytes@),
{
    let mut out = Vec::new();
    for event in xml::reader::EventReader::new(bytes) {
        match event {
            Ok(xml::reader::XmlEvent::StartElement { name, .. }) => {
                out.push(XmlEvent::Start(name.local_name));
            },
            Ok(xml::reader::XmlEvent::Characters(text)) => out.push(XmlEvent::Text(text)),
            Ok(xml::reader::XmlEvent::EndElement { .. }) => out.push(XmlEvent::End),
            Ok(_) => out.push(XmlEvent::Other),
            Err(e) => return (out, Some(e.to_string())),
        }
    }
    (out, None)
}

/// The first chunk of character data that immediately follows the opening
/// tag of an element whose local name is `name`, scanning the stream in
/// document order.
pub open spec fn spec_first_text(evs: Seq<XmlEvent>, name: Seq<char>) -> Option<Seq<char>>
    decreases evs.len(),
{
    if evs.len() < 2 {
        None
    } else {
        match (evs[0], evs[1]) {
            (XmlEvent::Start(n), XmlEvent::Text(t)) => if n@ == name {
                Some(t@)
            } else {
                spec_first_text(evs.drop_first(), name)
            },
            _ => spec_first_text(evs.drop_first(), name),
        }
    }
}

/// Find the text of the first element named `name`: the first character
/// data immediately after its opening tag.
pub fn first_text_of(events: &Vec<XmlEvent>, name: &str) -> (r: Option<String>)
    ensures
        match r {
            Some(t) => spec_first_text(events@, name@) == Some(t@),
            None => spec_first_text(events@, name@) is None,
        },
{
    let n = events.len();
    let want = String::from_str(name);
    let mut k: usize = 0;
    assert(events@.skip(0) =~= events@);
    while n - k > 1
        invariant
            n == events@.len(),
            0 <= k <= n,
            want@ == name@,
            spec_first_text(events@, name@) == spec_first_text(events@.skip(k as int), name@),
        decreases n - k,
    {
        proof {
            assert(events@.skip(k as int).drop_first() =~= events@.skip(k as int + 1));
            assert(events@.skip(k as int)[0] == events@[k as int]);
            assert(events@.skip(k as int)[1] == events@[k as int + 1]);
        }
        match &events[k] {
            XmlEvent::Start(elem) => {
                if *elem == want {
                    match &events[k + 1] {
                        XmlEvent::Text(t) => {
                            return Some(t.clone());
                        },
                        _ => {},
                    }
                }
            },
            _ => {},
        }
        k = k + 1;
    }
    proof {
        assert(spec_first_text(events@.skip(k as int), name@) is None);
    }
    None
}

} // verus!
