//! The report of a policy's metadata and of its signature manifest.
//!
//! Two strategies exist: a structured document, which is the entity
//! serialized as it is, and a human-readable report made of tables. This
//! module decides what the human-readable tables hold; printing them is left
//! to the caller.

use vstd::prelude::*;
use vstd::string::*;
use crate::annotations::{
    copy_pairs, lemma_without_keys_excludes, lemma_without_keys_keeps, lemma_without_keys_then,
    lemma_without_no_keys, lookup, lookup_value, without_key, without_keys,
};
use crate::text::{bool_text, bool_text_of, int_text, int_text_of};

verus! {

/// How a policy is evaluated; only `KubewardenWapc` needs a protocol version.
#[derive(Debug, Clone, Copy, PartialEq, Eq, Structural)]
pub enum ExecutionMode {
    KubewardenWapc,
    Opa,
    OpaGatekeeper,
}

/// The part of a policy's metadata that the report reads.
#[derive(Debug)]
pub struct PolicyMetadata {
    /// Annotation keys and values, in the mapping's order.
    pub annotations: Option<Vec<(String, String)>>,
    pub mutating: bool,
    pub context_aware: bool,
    pub execution_mode: ExecutionMode,
    pub protocol_version: Option<String>,
}

/// One row of a report table.
#[derive(Debug, PartialEq)]
pub enum ReportRow {
    /// A section title, alone on its row.
    Section(String),
    /// A label and its value.
    Entry(String, String),
    /// A property name, shown like a title, and its value.
    Property(String, String),
    /// An empty row.
    Blank,
}

/// What a row shows.
pub enum RowView {
    Section(Seq<char>),
    Entry(Seq<char>, Seq<char>),
    Property(Seq<char>, Seq<char>),
    Blank,
}

/// Failures while building the report.
#[derive(Debug, PartialEq)]
pub enum ReportError {
    /// The output format named is none of the known ones.
    InvalidOutputFormat(String),
    /// The execution mode needs a protocol version and none is given.
    MissingProtocolVersion,
    /// The markdown renderer failed, for another reason than a closed output.
    MarkdownFailed(String),
}

/// Which strategy renders the report.
#[derive(Debug, Clone, Copy, PartialEq, Eq, Structural)]
pub enum OutputType {
    Yaml,
    Pretty,
}

/// How a markdown rendering ended.
pub enum RenderOutcome {
    Rendered,
    /// The output stream was closed by its reader.
    BrokenPipe,
    Failed(String),
}

pub open spec fn row_view(r: ReportRow) -> RowView {
    match r {
        ReportRow::Section(t) => RowView::Section(t@),
        ReportRow::Entry(k, v) => RowView::Entry(k@, v@),
        ReportRow::Property(k, v) => RowView::Property(k@, v@),
        ReportRow::Blank => RowView::Blank,
    }
}

pub open spec fn rows_view(rows: Seq<ReportRow>) -> Seq<RowView> {
    rows.map_values(|r: ReportRow| row_view(r))
}

pub open spec fn namespace() -> Seq<char> {
    "io.kubewarden.policy."@
}

/// The well-known annotations shown under "Details", in their order.
pub open spec fn known_keys() -> Seq<Seq<char>> {
    seq![
        "io.kubewarden.policy.title"@,
        "io.kubewarden.policy.description"@,
        "io.kubewarden.policy.author"@,
        "io.kubewarden.policy.url"@,
        "io.kubewarden.policy.source"@,
        "io.kubewarden.policy.license"@,
    ]
}

/// The annotation that holds the usage text, never listed as an annotation.
pub open spec fn usage_key() -> Seq<char> {
    "io.kubewarden.policy.usage"@
}

/// `s` with every leading occurrence of the namespace removed.
pub open spec fn trim_namespace(s: Seq<char>) -> Seq<char>
    decreases s.len(),
{
    let ns = namespace();
    if ns.len() > 0 && s.len() >= ns.len() && s.take(ns.len() as int) == ns {
        trim_namespace(s.skip(ns.len() as int))
    } else {
        s
    }
}

/// The label of a well-known annotation: its key followed by `:`, without the
/// namespace.
pub open spec fn row_key(k: Seq<char>) -> Seq<char> {
    trim_namespace(k.push(':'))
}

pub open spec fn mode_text(m: ExecutionMode) -> Seq<char> {
    match m {
        ExecutionMode::KubewardenWapc => "kubewarden-wapc"@,
        ExecutionMode::Opa => "opa"@,
        ExecutionMode::OpaGatekeeper => "gatekeeper"@,
    }
}

pub open spec fn annotation_pairs(m: PolicyMetadata) -> Seq<(String, String)> {
    match m.annotations {
        Some(a) => a@,
        None => seq![],
    }
}

/// The "Details" rows of the keys `ks`, each key read from what the keys
/// before it left.
pub open spec fn known_rows(a: Seq<(String, String)>, ks: Seq<Seq<char>>) -> Seq<RowView>
    decreases ks.len(),
{
    if ks.len() == 0 {
        seq![]
    } else {
        let k = ks.last();
        known_rows(a, ks.drop_last()) + match lookup(without_keys(a, ks.drop_last()), k) {
            Some(v) => seq![RowView::Entry(row_key(k), v)],
            None => seq![],
        }
    }
}

pub open spec fn needs_protocol_version(m: PolicyMetadata) -> bool {
    m.execution_mode == ExecutionMode::KubewardenWapc
}

/// The rows that every report shows, and the protocol version where the mode
/// needs one.
pub open spec fn fixed_rows(m: PolicyMetadata) -> Seq<RowView> {
    seq![
        RowView::Entry("mutating:"@, bool_text(m.mutating)),
        RowView::Entry("context aware:"@, bool_text(m.context_aware)),
        RowView::Entry("execution mode:"@, mode_text(m.execution_mode)),
    ] + if needs_protocol_version(m) {
        seq![RowView::Entry("protocol version:"@, m.protocol_version.unwrap()@)]
    } else {
        seq![]
    }
}

/// The annotations that neither "Details" nor "Usage" show.
pub open spec fn leftover(a: Seq<(String, String)>) -> Seq<(String, String)> {
    without_keys(a, known_keys().push(usage_key()))
}

pub open spec fn pair_rows(a: Seq<(String, String)>) -> Seq<RowView> {
    a.map_values(|p: (String, String)| RowView::Entry(p.0@, p.1@))
}

pub open spec fn annotation_section(a: Seq<(String, String)>) -> Seq<RowView> {
    if leftover(a).len() == 0 {
        seq![]
    } else {
        seq![RowView::Blank, RowView::Section("Annotations"@)] + pair_rows(leftover(a))
    }
}

/// The metadata table of the human-readable report.
pub open spec fn details_rows(m: PolicyMetadata) -> Seq<RowView> {
    seq![RowView::Section("Details"@)] + known_rows(annotation_pairs(m), known_keys()) + fixed_rows(
        m,
    ) + annotation_section(annotation_pairs(m))
}

/// The table of one signature layer.
pub open spec fn layer_rows(layer: crate::manifest::Layer) -> Seq<RowView> {
    seq![
        RowView::Property("Digest: "@, layer.digest@),
        RowView::Property("Media type: "@, layer.media_type@),
        RowView::Property("Size: "@, int_text(layer.size as int)),
    ] + match layer.annotations {
        Some(a) => seq![RowView::Section("Annotations"@)] + pair_rows(a@),
        None => seq![],
    }
}

} // verus!

verus! {

fn known_key_list() -> (r: Vec<String>)
    ensures
        r@.len() == known_keys().len(),
        forall|j: int| 0 <= j < r@.len() ==> r@[j]@ == known_keys()[j],
{
    let mut r: Vec<String> = Vec::new();
    r.push(String::from_str("io.kubewarden.policy.title"));
    r.push(String::from_str("io.kubewarden.policy.description"));
    r.push(String::from_str("io.kubewarden.policy.author"));
    r.push(String::from_str("io.kubewarden.policy.url"));
    r.push(String::from_str("io.kubewarden.policy.source"));
    r.push(String::from_str("io.kubewarden.policy.license"));
    r
}

/// The label of the annotation `k`: `k` and `:`, without leading namespaces.
pub fn annotation_to_row_key(k: &String) -> (r: String)
    ensures
        r@ == row_key(k@),
{
    let ns = "io.kubewarden.policy.";
    let n = ns.unicode_len();
    let mut s = String::from_str(k.as_str());
    proof {
        reveal_strlit(":");
    }
    s.append(":");
    let ghost whole = s@;
    assert(whole =~= k@.push(':'));
    let mut done = false;
    while !done
        invariant
            n == namespace().len(),
            ns@ == namespace(),
            trim_namespace(s@) == trim_namespace(whole),
            done ==> trim_namespace(s@) == s@,
        decreases s@.len() + if done { 0int } else { 1int },
    {
        let len = s.as_str().unicode_len();
        if n == 0 || len < n {
            done = true;
        } else {
            let head = String::from_str(s.as_str().substring_char(0, n));
            if head != String::from_str(ns) {
                assert(s@.take(n as int) =~= head@);
                done = true;
            } else {
                let ghost prev = s@;
                assert(prev.take(n as int) =~= head@);
                s = String::from_str(s.as_str().substring_char(n, len));
                assert(s@ =~= prev.skip(n as int));
            }
        }
    }
    s
}

pub fn mode_text_of(m: ExecutionMode) -> (r: String)
    ensures
        r@ == mode_text(m),
{
    match m {
        ExecutionMode::KubewardenWapc => String::from_str("kubewarden-wapc"),
        ExecutionMode::Opa => String::from_str("opa"),
        ExecutionMode::OpaGatekeeper => String::from_str("gatekeeper"),
    }
}

/// Rows for the pairs `a`, appended to `rows`.
fn push_pair_rows(rows: &mut Vec<ReportRow>, a: &Vec<(String, String)>)
    ensures
        rows_view(final(rows)@) == rows_view(old(rows)@) + pair_rows(a@),
{
    let ghost start = rows_view(rows@);
    let mut j: usize = 0;
    while j < a.len()
        invariant
            j <= a@.len(),
            rows_view(rows@) == start + pair_rows(a@.take(j as int)),
        decreases a@.len() - j,
    {
        let ghost before = rows@;
        rows.push(ReportRow::Entry(a[j].0.clone(), a[j].1.clone()));
        assert(rows_view(rows@) =~= rows_view(before).push(
            RowView::Entry(a@[j as int].0@, a@[j as int].1@),
        ));
        assert(pair_rows(a@.take(j as int + 1)) =~= pair_rows(a@.take(j as int)).push(
            RowView::Entry(a@[j as int].0@, a@[j as int].1@),
        ));
        j = j + 1;
    }
    assert(a@.take(j as int) =~= a@);
}

/// The metadata table of the human-readable report. Fails only where the
/// execution mode needs a protocol version and none is given.
pub fn metadata_details(m: &PolicyMetadata) -> (r: Result<Vec<ReportRow>, ReportError>)
    ensures
        r is Err <==> needs_protocol_version(*m) && m.protocol_version is None,
        r matches Err(e) ==> e == ReportError::MissingProtocolVersion,
        r matches Ok(rows) ==> rows_view(rows@) == details_rows(*m),
{
    if m.execution_mode == ExecutionMode::KubewardenWapc && m.protocol_version.is_none() {
        return Err(ReportError::MissingProtocolVersion);
    }
    let ghost a = annotation_pairs(*m);
    let ghost ks = known_keys();
    let mut work = match &m.annotations {
        Some(x) => copy_pairs(x),
        None => Vec::new(),
    };
    proof {
        lemma_without_no_keys(a);
        assert(ks.take(0) =~= seq![]);
    }
    let keys = known_key_list();
    let mut rows: Vec<ReportRow> = Vec::new();
    rows.push(ReportRow::Section(String::from_str("Details")));
    assert(rows_view(rows@) =~= seq![RowView::Section("Details"@)] + known_rows(a, ks.take(0)));
    let mut i: usize = 0;
    while i < keys.len()
        invariant
            ks == known_keys(),
            keys@.len() == ks.len(),
            forall|j: int| 0 <= j < keys@.len() ==> keys@[j]@ == ks[j],
            i <= keys@.len(),
            work@ == without_keys(a, ks.take(i as int)),
            rows_view(rows@) == seq![RowView::Section("Details"@)] + known_rows(a, ks.take(i as int)),
        decreases keys@.len() - i,
    {
        let ghost before = rows@;
        let ghost k = ks[i as int];
        assert(ks.take(i as int + 1).drop_last() =~= ks.take(i as int));
        assert(ks.take(i as int + 1).last() == k);
        match lookup_value(&work, &keys[i]) {
            Some(v) => {
                let label = annotation_to_row_key(&keys[i]);
                rows.push(ReportRow::Entry(label, v));
                assert(rows_view(rows@) =~= rows_view(before) + seq![RowView::Entry(row_key(k), v@)]);
            },
            None => {},
        }
        let next = without_key(&work, &keys[i]);
        proof {
            lemma_without_keys_then(a, ks.take(i as int), k);
            assert(ks.take(i as int).push(k) =~= ks.take(i as int + 1));
        }
        work = next;
        i = i + 1;
    }
    assert(ks.take(6) =~= ks);
    let ghost known = rows_view(rows@);
    rows.push(ReportRow::Entry(String::from_str("mutating:"), bool_text_of(m.mutating)));
    rows.push(ReportRow::Entry(String::from_str("context aware:"), bool_text_of(m.context_aware)));
    rows.push(ReportRow::Entry(String::from_str("execution mode:"), mode_text_of(m.execution_mode)));
    if m.execution_mode == ExecutionMode::KubewardenWapc {
        match &m.protocol_version {
            Some(pv) => rows.push(ReportRow::Entry(String::from_str("protocol version:"), pv.clone())),
            None => {},
        }
    }
    assert(rows_view(rows@) =~= known + fixed_rows(*m));
    let usage = String::from_str("io.kubewarden.policy.usage");
    let rest = without_key(&work, &usage);
    proof {
        lemma_without_keys_then(a, ks, usage_key());
    }
    let ghost shown = rows_view(rows@);
    if rest.len() > 0 {
        rows.push(ReportRow::Blank);
        rows.push(ReportRow::Section(String::from_str("Annotations")));
        assert(rows_view(rows@) =~= shown + seq![RowView::Blank, RowView::Section("Annotations"@)]);
        push_pair_rows(&mut rows, &rest);
    }
    assert(rows_view(rows@) =~= details_rows(*m));
    Ok(rows)
}

/// The table of one signature layer.
pub fn layer_table(layer: &crate::manifest::Layer) -> (r: Vec<ReportRow>)
    ensures
        rows_view(r@) == layer_rows(*layer),
{
    let mut rows: Vec<ReportRow> = Vec::new();
    rows.push(ReportRow::Property(String::from_str("Digest: "), layer.digest.clone()));
    rows.push(ReportRow::Property(String::from_str("Media type: "), layer.media_type.clone()));
    rows.push(ReportRow::Property(String::from_str("Size: "), int_text_of(layer.size)));
    let ghost head = rows_view(rows@);
    match &layer.annotations {
        Some(a) => {
            rows.push(ReportRow::Section(String::from_str("Annotations")));
            assert(rows_view(rows@) =~= head + seq![RowView::Section("Annotations"@)]);
            push_pair_rows(&mut rows, a);
        },
        None => {},
    }
    assert(rows_view(rows@) =~= layer_rows(*layer));
    rows
}

/// One table per layer of the manifest, in the manifest's order.
pub fn signature_tables(manifest: &crate::manifest::SignatureManifest) -> (r: Vec<Vec<ReportRow>>)
    ensures
        r@.len() == manifest.layers@.len(),
        forall|i: int|
            0 <= i < r@.len() ==> rows_view(#[trigger] r@[i]@) == layer_rows(
                manifest.layers@[i],
            ),
{
    let mut tables: Vec<Vec<ReportRow>> = Vec::new();
    let mut i: usize = 0;
    while i < manifest.layers.len()
        invariant
            i <= manifest.layers@.len(),
            tables@.len() == i,
            forall|j: int|
                0 <= j < i ==> rows_view(#[trigger] tables@[j]@) == layer_rows(
                    manifest.layers@[j],
                ),
        decreases manifest.layers@.len() - i,
    {
        tables.push(layer_table(&manifest.layers[i]));
        i = i + 1;
    }
    tables
}

pub open spec fn rules_markdown_text(rules_yaml: Seq<char>) -> Seq<char> {
    "```yaml\n"@ + rules_yaml + "```"@
}

/// The markdown of the "Rules" section: the rules, serialized as YAML, in a
/// fenced code block.
pub fn rules_markdown(rules_yaml: &str) -> (r: String)
    ensures
        r@ == rules_markdown_text(rules_yaml@),
{
    let mut s = String::from_str("```yaml\n");
    s.append(rules_yaml);
    s.append("```");
    s
}

/// The text of the "Usage" section, where the usage annotation is given.
pub fn metadata_usage(m: &PolicyMetadata) -> (r: Option<String>)
    ensures
        match r {
            Some(u) => lookup(annotation_pairs(*m), usage_key()) == Some(u@),
            None => lookup(annotation_pairs(*m), usage_key()) is None,
        },
{
    match &m.annotations {
        Some(a) => lookup_value(a, &String::from_str("io.kubewarden.policy.usage")),
        None => None,
    }
}

/// A closed output stream ends the rendering without error; any other
/// failure is one.
pub fn markdown_result(outcome: RenderOutcome) -> (r: Result<(), ReportError>)
    ensures
        outcome matches RenderOutcome::Failed(e) ==> r == Err::<(), ReportError>(
            ReportError::MarkdownFailed(e),
        ),
        !(outcome is Failed) ==> r is Ok,
{
    match outcome {
        RenderOutcome::Failed(e) => Err(ReportError::MarkdownFailed(e)),
        _ => Ok(()),
    }
}

impl OutputType {
    /// The output format named by the user: none means the human-readable
    /// report, `yaml` the structured document; any other name is refused.
    pub fn try_from(value: Option<&str>) -> (r: Result<OutputType, ReportError>)
        ensures
            value is None ==> r == Ok::<OutputType, ReportError>(OutputType::Pretty),
            value matches Some(v) ==> (v@ == "yaml"@ ==> r == Ok::<OutputType, ReportError>(
                OutputType::Yaml,
            )),
            value matches Some(v) ==> (v@ != "yaml"@ ==> (r matches Err(
                ReportError::InvalidOutputFormat(name),
            ) && name@ == v@)),
    {
        match value {
            None => Ok(OutputType::Pretty),
            Some(v) => {
                let name = String::from_str(v);
                if name == String::from_str("yaml") {
                    Ok(OutputType::Yaml)
                } else {
                    Err(ReportError::InvalidOutputFormat(name))
                }
            },
        }
    }
}

pub open spec fn missing_metadata_text(uri: Seq<char>) -> Seq<char> {
    "No Kubewarden metadata found inside of '"@ + uri
        + "'.\nPolicies can be annotated with the `kwctl annotate` command."@
}

/// The message given when the artifact `uri` holds no embedded metadata.
pub fn missing_metadata_message(uri: &str) -> (r: String)
    ensures
        r@ == missing_metadata_text(uri@),
{
    let mut s = String::from_str("No Kubewarden metadata found inside of '");
    s.append(uri);
    s.append("'.\nPolicies can be annotated with the `kwctl annotate` command.");
    s
}

impl ReportError {
    pub open spec fn message_text(&self) -> Seq<char> {
        match self {
            ReportError::InvalidOutputFormat(n) => "Invalid output format '"@ + n@ + "'"@,
            ReportError::MissingProtocolVersion => "Invalid policy: protocol_version not defined"@,
            ReportError::MarkdownFailed(e) => "Cannot render markdown to stdout: "@ + e@,
        }
    }

    /// The message shown to the user.
    pub fn message(&self) -> (r: String)
        ensures
            r@ == self.message_text(),
    {
        match self {
            ReportError::InvalidOutputFormat(n) => {
                let mut s = String::from_str("Invalid output format '");
                s.append(n.as_str());
                s.append("'");
                s
            },
            ReportError::MissingProtocolVersion => String::from_str(
                "Invalid policy: protocol_version not defined",
            ),
            ReportError::MarkdownFailed(e) => {
                let mut s = String::from_str("Cannot render markdown to stdout: ");
                s.append(e.as_str());
                s
            },
        }
    }
}

/// Outside the mode that needs one, the protocol version shows nowhere: the
/// fixed rows are the three flags, and two metadata that differ only in their
/// protocol version give the same table.
pub proof fn law_protocol_version_only_when_needed(m: PolicyMetadata, other: PolicyMetadata)
    requires
        !needs_protocol_version(m),
        other.annotations == m.annotations,
        other.mutating == m.mutating,
        other.context_aware == m.context_aware,
        other.execution_mode == m.execution_mode,
    ensures
        fixed_rows(m) == seq![
            RowView::Entry("mutating:"@, bool_text(m.mutating)),
            RowView::Entry("context aware:"@, bool_text(m.context_aware)),
            RowView::Entry("execution mode:"@, mode_text(m.execution_mode)),
        ],
        details_rows(m) == details_rows(other),
{
    assert(fixed_rows(m) =~= seq![
        RowView::Entry("mutating:"@, bool_text(m.mutating)),
        RowView::Entry("context aware:"@, bool_text(m.context_aware)),
        RowView::Entry("execution mode:"@, mode_text(m.execution_mode)),
    ]);
    assert(fixed_rows(m) =~= fixed_rows(other));
}

/// The row is labelled after the well-known annotation `k`.
pub open spec fn labelled_by(r: RowView, k: Seq<char>) -> bool {
    match r {
        RowView::Entry(l, _) => l == row_key(k),
        _ => false,
    }
}

/// The row is an entry labelled `k`.
pub open spec fn entry_of(r: RowView, k: Seq<char>) -> bool {
    match r {
        RowView::Entry(l, _) => l == k,
        _ => false,
    }
}

/// Every "Details" row comes from one of the keys read, so an annotation
/// outside them never shows there.
pub proof fn law_details_rows_come_from_known_keys(a: Seq<(String, String)>, ks: Seq<Seq<char>>, i: int)
    requires
        0 <= i < known_rows(a, ks).len(),
    ensures
        exists|j: int| 0 <= j < ks.len() && labelled_by(#[trigger] known_rows(a, ks)[i], ks[j]),
    decreases ks.len(),
{
    let prev = known_rows(a, ks.drop_last());
    if i < prev.len() {
        law_details_rows_come_from_known_keys(a, ks.drop_last(), i);
        let j = choose|j: int|
            0 <= j < ks.drop_last().len() && labelled_by(#[trigger] prev[i], ks.drop_last()[j]);
        assert(known_rows(a, ks)[i] == prev[i]);
        assert(ks.drop_last()[j] == ks[j]);
    } else {
        assert(labelled_by(known_rows(a, ks)[i], ks[ks.len() - 1]));
    }
}

proof fn lemma_not_removed(k: Seq<char>)
    requires
        !known_keys().contains(k),
        k != usage_key(),
    ensures
        !known_keys().push(usage_key()).contains(k),
{
    let ks = known_keys().push(usage_key());
    if ks.contains(k) {
        let j = choose|j: int| 0 <= j < ks.len() && ks[j] == k;
        if j < known_keys().len() {
            assert(known_keys()[j] == k);
        }
    }
}

/// No entry of the "Annotations" section carries a well-known key or the
/// usage key: those were consumed before.
pub proof fn law_consumed_keys_not_in_annotations(a: Seq<(String, String)>, i: int, k: Seq<char>)
    requires
        0 <= i < annotation_section(a).len(),
        entry_of(annotation_section(a)[i], k),
    ensures
        !known_keys().contains(k),
        k != usage_key(),
{
    let ks = known_keys().push(usage_key());
    let rest = leftover(a);
    assert(i >= 2);
    assert(annotation_section(a)[i] == pair_rows(rest)[i - 2]);
    lemma_without_keys_excludes(a, ks, i - 2);
    assert(rest[i - 2].0@ == k);
    if known_keys().contains(k) {
        let j = choose|j: int| 0 <= j < known_keys().len() && known_keys()[j] == k;
        assert(ks[j] == k);
    }
    assert(ks[ks.len() - 1] == usage_key());
}

/// An annotation that is neither well known nor the usage shows, key and
/// value, in the "Annotations" section.
pub proof fn law_unknown_keys_in_annotations(a: Seq<(String, String)>, i: int)
    requires
        0 <= i < a.len(),
        !known_keys().contains(a[i].0@),
        a[i].0@ != usage_key(),
    ensures
        annotation_section(a).contains(RowView::Entry(a[i].0@, a[i].1@)),
{
    let ks = known_keys().push(usage_key());
    lemma_not_removed(a[i].0@);
    lemma_without_keys_keeps(a, ks, i);
    let rest = leftover(a);
    let j = choose|j: int| 0 <= j < rest.len() && rest[j] == a[i];
    assert(pair_rows(rest)[j] == RowView::Entry(a[i].0@, a[i].1@));
    assert(annotation_section(a)[j + 2] == RowView::Entry(a[i].0@, a[i].1@));
}

} // verus!
