//! Classification of asynchronous protocol events into leveled log emissions.
//!
//! The classifier is a pure observer: for each incoming event it either
//! produces exactly one emission (level and message text) or stays silent.
//! Error- and warning-level console entries are reported with their full
//! context, informational and verbose entries are filtered as noise, network
//! loading failures are always reported at error level, and every other
//! event kind is ignored.

use vstd::prelude::*;
use vstd::string::*;
use crate::numfmt::{dec_nat, u64_to_string};

verus! {

/// Severity of a console log entry delivered by the browser.
#[derive(Clone, Copy, Debug, PartialEq, Eq, Structural)]
pub enum LogLevel {
    Error,
    Warning,
    Info,
    Verbose,
}

/// Severity of an emission produced by the classifier.
#[derive(Clone, Copy, Debug, PartialEq, Eq, Structural)]
pub enum EmissionLevel {
    Error,
    Warning,
}

/// Mathematical image of a [`LogEntryData`].
pub struct LogEntryModel {
    pub level: LogLevel,
    pub text: Seq<char>,
    pub source: Seq<char>,
    pub url: Option<Seq<char>>,
    pub line_number: Option<u64>,
    pub network_request_id: Option<Seq<char>>,
}

/// A console log entry: the payload of a log-entry-added event.
#[derive(Debug)]
pub struct LogEntryData {
    pub level: LogLevel,
    pub text: String,
    pub source: String,
    pub url: Option<String>,
    pub line_number: Option<u64>,
    pub network_request_id: Option<String>,
}

impl View for LogEntryData {
    type V = LogEntryModel;

    open spec fn view(&self) -> LogEntryModel {
        LogEntryModel {
            level: self.level,
            text: self.text@,
            source: self.source@,
            url: match self.url {
                Some(u) => Some(u@),
                None => None,
            },
            line_number: self.line_number,
            network_request_id: match self.network_request_id {
                Some(r) => Some(r@),
                None => None,
            },
        }
    }
}

/// Mathematical image of a [`ProtocolEvent`].
pub enum EventModel {
    LogEntryAdded(LogEntryModel),
    NetworkLoadingFailed(Seq<char>),
    Other,
}

/// One asynchronous protocol event, reduced to the data the classifier reads.
///
/// The variant for events the classifier ignores is explicit, so that new
/// event kinds extend the union without touching the classification rule.
#[derive(Debug)]
pub enum ProtocolEvent {
    LogEntryAdded(LogEntryData),
    /// The rendered payload of a network loading failure.
    NetworkLoadingFailed(String),
    Other,
}

impl View for ProtocolEvent {
    type V = EventModel;

    open spec fn view(&self) -> EventModel {
        match self {
            ProtocolEvent::LogEntryAdded(e) => EventModel::LogEntryAdded(e@),
            ProtocolEvent::NetworkLoadingFailed(p) => EventModel::NetworkLoadingFailed(p@),
            ProtocolEvent::Other => EventModel::Other,
        }
    }
}

/// Mathematical image of an [`Emission`].
pub struct EmissionModel {
    pub level: EmissionLevel,
    pub text: Seq<char>,
}

/// One leveled log line produced by the classifier or the threshold check.
#[derive(Debug)]
pub struct Emission {
    pub level: EmissionLevel,
    pub text: String,
}

impl View for Emission {
    type V = EmissionModel;

    open spec fn view(&self) -> EmissionModel {
        EmissionModel { level: self.level, text: self.text@ }
    }
}

/// The image of an optional emission.
pub open spec fn emission_view(r: Option<Emission>) -> Option<EmissionModel> {
    match r {
        Some(e) => Some(e@),
        None => None,
    }
}

/// The URL of a log entry, or the empty string if it carries none.
pub open spec fn opt_text(o: Option<Seq<char>>) -> Seq<char> {
    match o {
        Some(t) => t,
        None => Seq::empty(),
    }
}

/// The line number of a log entry, or zero if it carries none.
pub open spec fn opt_line(o: Option<u64>) -> int {
    match o {
        Some(l) => l as int,
        None => 0,
    }
}

/// Message part before the entry text: the navigation context label.
pub open spec fn entry_prefix(goto_url: Seq<char>) -> Seq<char> {
    "goto_url: "@ + goto_url + "; "@
}

/// Message part after the entry text: source, URL, line and request id.
pub open spec fn entry_suffix(e: LogEntryModel) -> Seq<char> {
    " source: "@ + e.source + "; url: "@ + opt_text(e.url) + "; line: "@ + dec_nat(
        opt_line(e.line_number),
    ) + "; network_request_id: "@ + opt_text(e.network_request_id)
}

/// The full message reported for an error- or warning-level log entry.
pub open spec fn entry_message(goto_url: Seq<char>, e: LogEntryModel) -> Seq<char> {
    entry_prefix(goto_url) + e.text + entry_suffix(e)
}

/// The emission, if any, that an event produces under context label `goto_url`.
pub open spec fn classified(goto_url: Seq<char>, ev: EventModel) -> Option<EmissionModel> {
    match ev {
        EventModel::LogEntryAdded(e) => match e.level {
            LogLevel::Error => Some(
                EmissionModel { level: EmissionLevel::Error, text: entry_message(goto_url, e) },
            ),
            LogLevel::Warning => Some(
                EmissionModel { level: EmissionLevel::Warning, text: entry_message(goto_url, e) },
            ),
            LogLevel::Info => None,
            LogLevel::Verbose => None,
        },
        EventModel::NetworkLoadingFailed(p) => Some(
            EmissionModel { level: EmissionLevel::Error, text: "NetworkLoadingFailed "@ + p },
        ),
        EventModel::Other => None,
    }
}

/// Whether `needle` occurs contiguously somewhere in `hay`.
pub open spec fn contains_seq(hay: Seq<char>, needle: Seq<char>) -> bool {
    exists|k: int|
        0 <= k <= hay.len() - needle.len() && #[trigger] hay.subrange(k, k + needle.len())
            == needle
}

/// A sequence contains any middle part it is assembled around.
pub proof fn lemma_contains_middle(pre: Seq<char>, mid: Seq<char>, suf: Seq<char>, hay: Seq<char>)
    requires
        hay == pre + mid + suf,
    ensures
        contains_seq(hay, mid),
{
    let k = pre.len() as int;
    assert(hay.subrange(k, k + mid.len()) =~= mid);
    assert(0 <= k <= hay.len() - mid.len() && hay.subrange(k, k + mid.len()) == mid);
}

/// Law: an error-level log entry is classified into exactly one emission; it
/// is at error level and its message carries the entry's own text and URL.
pub proof fn lemma_error_entry_classified(goto_url: Seq<char>, e: LogEntryModel)
    requires
        e.level == LogLevel::Error,
    ensures
        classified(goto_url, EventModel::LogEntryAdded(e)) matches Some(em) && em.level
            == EmissionLevel::Error && contains_seq(em.text, e.text) && contains_seq(
            em.text,
            opt_text(e.url),
        ),
{
    let msg = entry_message(goto_url, e);
    lemma_contains_middle(entry_prefix(goto_url), e.text, entry_suffix(e), msg);
    let url_pre = entry_prefix(goto_url) + e.text + " source: "@ + e.source + "; url: "@;
    let url_suf = "; line: "@ + dec_nat(opt_line(e.line_number)) + "; network_request_id: "@
        + opt_text(e.network_request_id);
    assert(msg =~= url_pre + opt_text(e.url) + url_suf);
    lemma_contains_middle(url_pre, opt_text(e.url), url_suf, url_pre + opt_text(e.url) + url_suf);
}

/// Law: informational and verbose log entries, and unrecognized event kinds,
/// produce no emission.
pub proof fn lemma_noise_is_silent(goto_url: Seq<char>, e: LogEntryModel)
    requires
        e.level == LogLevel::Info || e.level == LogLevel::Verbose,
    ensures
        classified(goto_url, EventModel::LogEntryAdded(e)) is None,
        classified(goto_url, EventModel::Other) is None,
{
}

/// Law: a network loading failure always produces exactly one error-level
/// emission, and its message carries the failure payload.
pub proof fn lemma_network_failure_classified(goto_url: Seq<char>, payload: Seq<char>)
    ensures
        classified(goto_url, EventModel::NetworkLoadingFailed(payload)) matches Some(em)
            && em.level == EmissionLevel::Error && contains_seq(em.text, payload),
{
    let msg = "NetworkLoadingFailed "@ + payload;
    assert(msg =~= "NetworkLoadingFailed "@ + payload + Seq::<char>::empty());
    lemma_contains_middle(
        "NetworkLoadingFailed "@,
        payload,
        Seq::<char>::empty(),
        "NetworkLoadingFailed "@ + payload + Seq::<char>::empty(),
    );
    assert(contains_seq("NetworkLoadingFailed "@ + payload + Seq::<char>::empty(), payload));
    assert(msg == "NetworkLoadingFailed "@ + payload + Seq::<char>::empty());
}

/// Renders the message for an error- or warning-level log entry.
fn build_entry_message(goto_url: &str, e: &LogEntryData) -> (r: String)
    ensures
        r@ == entry_message(goto_url@, e@),
{
    let mut m = String::from_str("goto_url: ");
    m.append(goto_url);
    m.append("; ");
    m.append(e.text.as_str());
    m.append(" source: ");
    m.append(e.source.as_str());
    m.append("; url: ");
    match &e.url {
        Some(u) => m.append(u.as_str()),
        None => (),
    }
    m.append("; line: ");
    let line: u64 = match &e.line_number {
        Some(l) => *l,
        None => 0,
    };
    let rendered_line = u64_to_string(line);
    m.append(rendered_line.as_str());
    m.append("; network_request_id: ");
    match &e.network_request_id {
        Some(id) => m.append(id.as_str()),
        None => (),
    }
    proof {
        assert(m@ =~= entry_message(goto_url@, e@));
    }
    m
}

/// Classifies one protocol event under the navigation context `goto_url`.
///
/// Returns exactly the emission that [`classified`] assigns to the event:
/// one error-level line for an error entry or a network loading failure, one
/// warning-level line for a warning entry, and nothing for informational or
/// verbose entries and for every other event kind.
pub fn classify_event(event: &ProtocolEvent, goto_url: &str) -> (r: Option<Emission>)
    ensures
        emission_view(r) == classified(goto_url@, event@),
{
    match event {
        ProtocolEvent::LogEntryAdded(e) => match e.level {
            LogLevel::Error => Some(
                Emission { level: EmissionLevel::Error, text: build_entry_message(goto_url, e) },
            ),
            LogLevel::Warning => Some(
                Emission { level: EmissionLevel::Warning, text: build_entry_message(goto_url, e) },
            ),
            LogLevel::Info => None,
            LogLevel::Verbose => None,
        },
        ProtocolEvent::NetworkLoadingFailed(payload) => {
            let mut t = String::from_str("NetworkLoadingFailed ");
            t.append(payload.as_str());
            Some(Emission { level: EmissionLevel::Error, text: t })
        },
        ProtocolEvent::Other => None,
    }
}

} // verus!
