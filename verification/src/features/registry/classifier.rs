use vstd::prelude::*;
use crate::features::registry::models::{
    RegistryEvent, RegistryEventView, SuspiciousRegistryOperation,
    SuspiciousRegistryOperationBuilder, SuspiciousRegistryOperationView,
};
use crate::shared::text::{
    contains, contains_ignore_case, contains_ignoring_case, contains_text, joined, text_of, texts,
};
use crate::shared::traits::Severity;

verus! {

/// The first pattern from position `from` on that `data` contains when case
/// is ignored, if there is one.
pub open spec fn first_pattern(data: Seq<char>, patterns: Seq<Seq<char>>, from: int) -> Option<int>
    decreases patterns.len() - from,
{
    if from < 0 || from >= patterns.len() {
        None
    } else if contains_ignoring_case(data, patterns[from]) {
        Some(from)
    } else {
        first_pattern(data, patterns, from + 1)
    }
}

/// The first sensitive path from position `from` on that `key_path`
/// contains, if there is one.
pub open spec fn first_sensitive_path(
    key_path: Seq<char>,
    sensitive_paths: Seq<Seq<char>>,
    from: int,
) -> Option<int>
    decreases sensitive_paths.len() - from,
{
    if from < 0 || from >= sensitive_paths.len() {
        None
    } else if contains_text(key_path, sensitive_paths[from]) {
        Some(from)
    } else {
        first_sensitive_path(key_path, sensitive_paths, from + 1)
    }
}

/// What a heuristic found about an event.
pub struct Finding {
    pub severity: Severity,
    pub reason: Seq<char>,
    pub data: Seq<char>,
}

/// The finding about an event, if any. The pattern check comes first: an
/// event with new data that contains a suspicious pattern gives a finding of
/// high severity that cites the first such pattern. Otherwise an event whose
/// key path contains a sensitive path gives one of medium severity that cites
/// the first such path.
pub open spec fn finding(
    event: RegistryEventView,
    patterns: Seq<Seq<char>>,
    sensitive_paths: Seq<Seq<char>>,
) -> Option<Finding> {
    if event.new_data is Some && first_pattern(event.new_data->0, patterns, 0) is Some {
        Some(
            Finding {
                severity: Severity::High,
                reason: "Suspicious command pattern detected: "@ + patterns[first_pattern(
                    event.new_data->0,
                    patterns,
                    0,
                )->0],
                data: event.new_data->0,
            },
        )
    } else if first_sensitive_path(event.key_path, sensitive_paths, 0) is Some {
        Some(
            Finding {
                severity: Severity::Medium,
                reason: "Modification to sensitive registry path: "@
                    + sensitive_paths[first_sensitive_path(event.key_path, sensitive_paths, 0)->0],
                data: match event.new_data {
                    Some(data) => data,
                    None => Seq::empty(),
                },
            },
        )
    } else {
        None
    }
}

/// The text of an optional field, or the empty text.
pub open spec fn or_empty(text: Option<Seq<char>>) -> Seq<char> {
    match text {
        Some(t) => t,
        None => Seq::empty(),
    }
}

/// The record that flags an event for a finding.
pub open spec fn flagged(
    event: RegistryEventView,
    found: Finding,
    source: Seq<char>,
    id: Seq<char>,
) -> SuspiciousRegistryOperationView {
    SuspiciousRegistryOperationView {
        id,
        timestamp: event.timestamp,
        source,
        category: "registry_suspicious"@,
        operation: event.event_type.name(),
        key_path: event.key_path,
        value_name: Some(or_empty(event.value_name)),
        data: Some(found.data),
        process_name: Some(or_empty(event.process_name)),
        process_id: Some(
            match event.process_id {
                Some(pid) => pid,
                None => 0u32,
            },
        ),
        severity_level: found.severity,
        reason: found.reason,
    }
}

/// The record that classification gives for an event, if any: the finding,
/// flagged, unless the event names no key.
pub open spec fn classification(
    event: RegistryEventView,
    patterns: Seq<Seq<char>>,
    sensitive_paths: Seq<Seq<char>>,
    source: Seq<char>,
    id: Seq<char>,
) -> Option<SuspiciousRegistryOperationView> {
    match finding(event, patterns, sensitive_paths) {
        Some(found) => if event.key_path.len() > 0 {
            Some(flagged(event, found, source, id))
        } else {
            None
        },
        None => None,
    }
}

/// The pattern check wins: an event whose new data contains a suspicious
/// pattern is flagged once, with high severity, also where its key path
/// contains a sensitive path.
pub proof fn lemma_pattern_check_wins(
    event: RegistryEventView,
    patterns: Seq<Seq<char>>,
    sensitive_paths: Seq<Seq<char>>,
    source: Seq<char>,
    id: Seq<char>,
    pattern: int,
    path: int,
)
    requires
        event.valid(),
        event.new_data is Some,
        0 <= pattern < patterns.len(),
        contains_ignoring_case(event.new_data->0, patterns[pattern]),
        0 <= path < sensitive_paths.len(),
        contains_text(event.key_path, sensitive_paths[path]),
    ensures
        classification(event, patterns, sensitive_paths, source, id) matches Some(record)
            && record.severity_level == Severity::High,
{
    lemma_first_pattern_found(event.new_data->0, patterns, 0, pattern);
}

/// Where `data` contains the pattern at `at`, a first such pattern is found
/// from every position up to `at`, and it stands no later than `at`.
pub proof fn lemma_first_pattern_found(
    data: Seq<char>,
    patterns: Seq<Seq<char>>,
    from: int,
    at: int,
)
    requires
        0 <= from <= at < patterns.len(),
        contains_ignoring_case(data, patterns[at]),
    ensures
        first_pattern(data, patterns, from) matches Some(i) && from <= i <= at
            && contains_ignoring_case(data, patterns[i]),
    decreases at - from,
{
    if from < at && !contains_ignoring_case(data, patterns[from]) {
        lemma_first_pattern_found(data, patterns, from + 1, at);
    }
}

/// The record of an optional result, as plain values.
pub open spec fn record_view(record: Option<SuspiciousRegistryOperation>) -> Option<
    SuspiciousRegistryOperationView,
> {
    match record {
        Some(r) => Some(r@),
        None => None,
    }
}

/// The first pattern that `data` contains when case is ignored.
pub fn find_pattern(data: &str, patterns: &Vec<String>) -> (found: Option<usize>)
    ensures
        match found {
            Some(i) => first_pattern(data@, texts(patterns@), 0) == Some(i as int) && i
                < patterns.len(),
            None => first_pattern(data@, texts(patterns@), 0) is None,
        },
{
    let mut i: usize = 0;
    while i < patterns.len()
        invariant
            i <= patterns.len(),
            first_pattern(data@, texts(patterns@), 0) == first_pattern(
                data@,
                texts(patterns@),
                i as int,
            ),
        decreases patterns.len() - i,
    {
        if contains_ignore_case(data, patterns[i].as_str()) {
            return Some(i);
        }
        i += 1;
    }
    None
}

/// The first sensitive path that `key_path` contains.
pub fn find_sensitive_path(key_path: &str, sensitive_paths: &Vec<String>) -> (found: Option<usize>)
    ensures
        match found {
            Some(i) => first_sensitive_path(key_path@, texts(sensitive_paths@), 0) == Some(
                i as int,
            ) && i < sensitive_paths.len(),
            None => first_sensitive_path(key_path@, texts(sensitive_paths@), 0) is None,
        },
{
    let mut i: usize = 0;
    while i < sensitive_paths.len()
        invariant
            i <= sensitive_paths.len(),
            first_sensitive_path(key_path@, texts(sensitive_paths@), 0) == first_sensitive_path(
                key_path@,
                texts(sensitive_paths@),
                i as int,
            ),
        decreases sensitive_paths.len() - i,
    {
        if contains(key_path, sensitive_paths[i].as_str()) {
            return Some(i);
        }
        i += 1;
    }
    None
}

/// A copy of an optional text, or the empty text.
fn text_or_empty(text: &Option<String>) -> (out: String)
    ensures
        out@ == or_empty(text_of(*text)),
{
    match text {
        Some(t) => t.clone(),
        None => String::new(),
    }
}

/// Flags an event for a finding, under the given identifier.
fn flag(
    event: &RegistryEvent,
    severity: Severity,
    reason: String,
    data: String,
    source: &str,
    id: String,
) -> (record: Option<SuspiciousRegistryOperation>)
    ensures
        record_view(record) == (if event@.key_path.len() > 0 && reason@.len() > 0 {
            Some(
                flagged(
                    event@,
                    (Finding { severity, reason: reason@, data: data@ }),
                    source@,
                    id@,
                ),
            )
        } else {
            None
        }),
        record matches Some(r) ==> r@.valid(),
{
    proof {
        reveal_strlit("Created");
        reveal_strlit("Modified");
        reveal_strlit("Deleted");
    }
    let process_id = match event.process_id {
        Some(pid) => pid,
        None => 0,
    };
    let built = SuspiciousRegistryOperationBuilder::new().id(id).timestamp(event.timestamp).source(
        String::from_str(source),
    ).category(String::from_str("registry_suspicious")).operation(
        event.event_type.to_name(),
    ).key_path(event.key_path.clone()).value_name(text_or_empty(&event.value_name)).data(
        data,
    ).process_name(text_or_empty(&event.process_name)).process_id(process_id).severity_level(
        severity,
    ).reason(reason).build_with(String::new(), event.timestamp);
    match built {
        Ok(record) => Some(record),
        Err(_) => None,
    }
}

/// Classifies an event against the suspicious patterns and the sensitive
/// paths; the first check that matches decides. The record stands under the
/// given identifier. Neither the event nor the lists are changed.
pub fn classify(
    event: &RegistryEvent,
    patterns: &Vec<String>,
    sensitive_paths: &Vec<String>,
    source: &str,
    id: String,
) -> (record: Option<SuspiciousRegistryOperation>)
    ensures
        record_view(record) == classification(
            event@,
            texts(patterns@),
            texts(sensitive_paths@),
            source@,
            id@,
        ),
        record matches Some(r) ==> r@.valid(),
{
    proof {
        reveal_strlit("Suspicious command pattern detected: ");
        reveal_strlit("Modification to sensitive registry path: ");
    }
    if let Some(data) = &event.new_data {
        if let Some(i) = find_pattern(data.as_str(), patterns) {
            let reason = joined("Suspicious command pattern detected: ", patterns[i].as_str());
            return flag(event, Severity::High, reason, data.clone(), source, id);
        }
    }
    if let Some(j) = find_sensitive_path(event.key_path.as_str(), sensitive_paths) {
        let reason = joined(
            "Modification to sensitive registry path: ",
            sensitive_paths[j].as_str(),
        );
        let data = text_or_empty(&event.new_data);
        return flag(event, Severity::Medium, reason, data, source, id);
    }
    None
}

} // verus!
