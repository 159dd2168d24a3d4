//! From a message file's bytes to a normalized document.
//!
//! A parser worker reads one candidate file's bytes and hands them here. The
//! bytes are parsed as a MIME message; the `Message-Id`, `Subject` and `Date`
//! headers and the decoded body are required for a document to be built, and
//! an unparseable `Date` value degrades to timestamp 0 rather than discarding
//! the document. Any parse failure or missing required field discards the
//! message silently: that is the pipeline's best-effort policy.

use mailparse::MailHeaderMap;
use vstd::prelude::*;

verus! {

/// The fields the pipeline reads out of one parsed message. Each is `None`
/// when the message lacks it.
pub struct MailFields {
    /// First `Message-Id` header value.
    pub id: Option<String>,
    /// First `Subject` header value.
    pub subject: Option<String>,
    /// First `Date` header value, still as text.
    pub date: Option<String>,
    /// Decoded body text, `None` when decoding failed.
    pub body: Option<String>,
}

/// Spec-level picture of `MailFields`.
pub ghost struct MailFieldsView {
    pub id: Option<Seq<char>>,
    pub subject: Option<Seq<char>>,
    pub date: Option<Seq<char>>,
    pub body: Option<Seq<char>>,
}

/// Spec-level picture of an optional string.
pub open spec fn opt_text(o: Option<String>) -> Option<Seq<char>> {
    match o {
        Some(s) => Some(s@),
        None => None,
    }
}

impl View for MailFields {
    type V = MailFieldsView;

    open spec fn view(&self) -> MailFieldsView {
        MailFieldsView {
            id: opt_text(self.id),
            subject: opt_text(self.subject),
            date: opt_text(self.date),
            body: opt_text(self.body),
        }
    }
}

/// Whether `bytes` parse as a MIME message at all.
pub uninterp spec fn mail_parses(bytes: Seq<u8>) -> bool;

/// The first value of the header named `name` in the message encoded by
/// `bytes`, matched case-insensitively; `None` when the message has no such
/// header.
pub uninterp spec fn header_value_of(bytes: Seq<u8>, name: Seq<char>) -> Option<Seq<char>>;

/// The decoded body text of the message encoded by `bytes`; `None` when the
/// body cannot be decoded.
pub uninterp spec fn body_text_of(bytes: Seq<u8>) -> Option<Seq<char>>;

/// The UNIX timestamp that a `Date` header's text denotes; `None` when the
/// text is not a recognized date format.
pub uninterp spec fn date_seconds_of(text: Seq<char>) -> Option<i64>;

/// Relies on `mailparse::parse_mail` to parse one message's bytes, on
/// `mailparse::MailHeaderMap::get_first_value` for the first `Message-Id`,
/// `Subject` and `Date` header values, and on `mailparse::ParsedMail::get_body`
/// for the decoded body text. Each is a function of the bytes alone.
#[verifier::external_body]
fn extract_fields(bytes: &Vec<u8>) -> (r: Option<MailFields>)
    ensures
        r is Some <==> mail_parses(bytes@),
        r matches Some(f) ==> f@ == (MailFieldsView {
            id: header_value_of(bytes@, "Message-Id"@),
            subject: header_value_of(bytes@, "Subject"@),
            date: header_value_of(bytes@, "Date"@),
            body: body_text_of(bytes@),
        }),
{
    match mailparse::parse_mail(bytes.as_slice()) {
        Ok(m) => Some(MailFields {
            id: m.headers.get_first_value("Message-Id"),
            subject: m.headers.get_first_value("Subject"),
            date: m.headers.get_first_value("Date"),
            body: m.get_body().ok(),
        }),
        Err(_) => None,
    }
}

/// Relies on `mailparse::dateparse`: best-effort conversion of a `Date`
/// header's text to a UNIX timestamp, a function of the text alone.
#[verifier::external_body]
fn parse_date(text: &str) -> (r: Option<i64>)
    ensures
        r == date_seconds_of(text@),
{
    mailparse::dateparse(text).ok()
}

/// One message normalized for indexing. Built only when all required fields
/// are present: a partial document is never created.
pub struct NormalizedDocument {
    /// The message's unique identifier, from `Message-Id`.
    pub id: String,
    /// Path of the source file.
    pub path: String,
    /// The message's subject line.
    pub subject: String,
    /// The message's decoded body text.
    pub body: String,
    /// UNIX timestamp of the `Date` header, 0 when it did not parse.
    pub date: i64,
}

/// Spec-level picture of a normalized document.
pub ghost struct DocView {
    pub id: Seq<char>,
    pub path: Seq<char>,
    pub subject: Seq<char>,
    pub body: Seq<char>,
    pub date: i64,
}

impl View for NormalizedDocument {
    type V = DocView;

    open spec fn view(&self) -> DocView {
        DocView {
            id: self.id@,
            path: self.path@,
            subject: self.subject@,
            body: self.body@,
            date: self.date,
        }
    }
}

/// Spec-level picture of an optional document.
pub open spec fn opt_doc_view(r: Option<NormalizedDocument>) -> Option<DocView> {
    match r {
        Some(d) => Some(d@),
        None => None,
    }
}

/// The timestamp a `Date` header's text yields: its parsed value, or 0 when
/// it does not parse.
pub open spec fn spec_date_or_zero(text: Seq<char>) -> i64 {
    match date_seconds_of(text) {
        Some(t) => t,
        None => 0,
    }
}

/// The document that a set of extracted fields yields for a file at `path`:
/// one exactly when all four required fields are present.
pub open spec fn spec_build(f: MailFieldsView, path: Seq<char>) -> Option<DocView> {
    if f.id is Some && f.subject is Some && f.date is Some && f.body is Some {
        Some(DocView {
            id: f.id->Some_0,
            path: path,
            subject: f.subject->Some_0,
            body: f.body->Some_0,
            date: spec_date_or_zero(f.date->Some_0),
        })
    } else {
        None
    }
}

/// The document that a message's bytes yield for a file at `path`, or `None`
/// when the message is discarded.
pub open spec fn spec_document_of(bytes: Seq<u8>, path: Seq<char>) -> Option<DocView> {
    if mail_parses(bytes) {
        spec_build(
            MailFieldsView {
                id: header_value_of(bytes, "Message-Id"@),
                subject: header_value_of(bytes, "Subject"@),
                date: header_value_of(bytes, "Date"@),
                body: body_text_of(bytes),
            },
            path,
        )
    } else {
        None
    }
}

/// Whether a message's bytes yield a document at all.
pub open spec fn spec_indexable(bytes: Seq<u8>) -> bool {
    &&& mail_parses(bytes)
    &&& header_value_of(bytes, "Message-Id"@) is Some
    &&& header_value_of(bytes, "Subject"@) is Some
    &&& header_value_of(bytes, "Date"@) is Some
    &&& body_text_of(bytes) is Some
}

/// Converts a `Date` header's text to a timestamp, degrading to 0 when the
/// text does not parse as a date.
pub fn date_or_zero(text: &str) -> (r: i64)
    ensures
        r == spec_date_or_zero(text@),
{
    match parse_date(text) {
        Some(t) => t,
        None => 0,
    }
}

/// Builds the normalized document for a file at `path` from its extracted
/// fields: `Some` exactly when all four required fields are present.
pub fn build_document(fields: MailFields, path: String) -> (r: Option<NormalizedDocument>)
    ensures
        opt_doc_view(r) == spec_build(fields@, path@),
{
    match (fields.id, fields.subject, fields.date, fields.body) {
        (Some(id), Some(subject), Some(date), Some(body)) => {
            let ts = date_or_zero(date.as_str());
            Some(NormalizedDocument { id, path, subject, body, date: ts })
        },
        _ => None,
    }
}

/// Parses one candidate file's bytes and builds its normalized document.
/// Returns `Some` exactly when the bytes parse as a MIME message with a
/// `Message-Id`, a `Subject`, a `Date` and a decodable body; everything else
/// is silently discarded.
pub fn process_message(bytes: &Vec<u8>, path: String) -> (r: Option<NormalizedDocument>)
    ensures
        opt_doc_view(r) == spec_document_of(bytes@, path@),
        r is Some <==> spec_indexable(bytes@),
{
    match extract_fields(bytes) {
        Some(fields) => build_document(fields, path),
        None => None,
    }
}

/// The documents that a corpus of (bytes, path) pairs yields, in corpus
/// order. The pipeline itself promises no order across items; this sequence
/// is its sequential model.
pub open spec fn spec_indexed_documents(corpus: Seq<(Seq<u8>, Seq<char>)>) -> Seq<DocView>
    decreases corpus.len(),
{
    if corpus.len() == 0 {
        Seq::empty()
    } else {
        let rest = spec_indexed_documents(corpus.drop_last());
        match spec_document_of(corpus.last().0, corpus.last().1) {
            Some(d) => rest.push(d),
            None => rest,
        }
    }
}

/// Processes a corpus of (bytes, path) pairs in order, keeping the documents
/// of the messages that are indexable and discarding the rest.
pub fn process_corpus(files: Vec<(Vec<u8>, String)>) -> (r: Vec<NormalizedDocument>)
    ensures
        r@.map_values(|d: NormalizedDocument| d@) == spec_indexed_documents(
            files@.map_values(|f: (Vec<u8>, String)| (f.0@, f.1@)),
        ),
{
    let ghost all = files@.map_values(|f: (Vec<u8>, String)| (f.0@, f.1@));
    let mut r: Vec<NormalizedDocument> = Vec::new();
    let mut i: usize = 0;
    while i < files.len()
        invariant
            i <= files@.len(),
            all == files@.map_values(|f: (Vec<u8>, String)| (f.0@, f.1@)),
            r@.map_values(|d: NormalizedDocument| d@) == spec_indexed_documents(
                all.take(i as int),
            ),
        decreases files@.len() - i,
    {
        proof {
            assert(all.take(i + 1).drop_last() == all.take(i as int));
            assert(all.take(i + 1).last() == all[i as int]);
        }
        let f = &files[i];
        if let Some(d) = process_message(&f.0, f.1.clone()) {
            r.push(d);
        }
        i = i + 1;
    }
    proof {
        assert(all.take(all.len() as int) == all);
    }
    r
}

/// A discarded message contributes no document: removing it from a corpus
/// leaves the documents of the other messages unchanged.
pub proof fn lemma_discarded_message_no_effect(corpus: Seq<(Seq<u8>, Seq<char>)>, i: int)
    requires
        0 <= i < corpus.len(),
        spec_document_of(corpus[i].0, corpus[i].1) is None,
    ensures
        spec_indexed_documents(corpus.remove(i)) == spec_indexed_documents(corpus),
    decreases corpus.len(),
{
    if i == corpus.len() - 1 {
        assert(corpus.remove(i) =~= corpus.drop_last());
    } else {
        let shorter = corpus.drop_last();
        lemma_discarded_message_no_effect(shorter, i);
        assert(corpus.remove(i).drop_last() =~= shorter.remove(i));
        assert(corpus.remove(i).last() == corpus.last());
    }
}

/// A message missing `Message-Id` is never indexed, and removing it from a
/// corpus does not alter the documents contributed by the other messages in
/// the same run.
pub proof fn lemma_missing_id_no_effect(corpus: Seq<(Seq<u8>, Seq<char>)>, i: int)
    requires
        0 <= i < corpus.len(),
        header_value_of(corpus[i].0, "Message-Id"@) is None,
    ensures
        spec_document_of(corpus[i].0, corpus[i].1) is None,
        spec_indexed_documents(corpus.remove(i)) == spec_indexed_documents(corpus),
{
    lemma_discarded_message_no_effect(corpus, i);
}

} // verus!
