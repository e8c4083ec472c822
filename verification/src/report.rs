//! The report aggregator: renders the collected batch records as a flat
//! text report and as tabular rows, in record order.

use vstd::prelude::*;

use crate::analysis::{attr_lookup, Attribute, BatchRecord, Region};
use crate::numfmt::{basis_points_text, format_basis_points};

verus! {

/// How many records the console preview shows before directing the
/// operator to the full persisted report.
pub const PREVIEW_CAP: usize = 3;

/// One labeled line of a text block: the attribute's name, its value,
/// and the service's confidence.
pub open spec fn attr_line(a: Attribute) -> Seq<char> {
    a.name@ + ": "@ + a.value@ + " (confidence: "@ + basis_points_text(a.confidence_bp as nat)
        + ")"@ + "\n"@
}

/// The attribute lines of one result, in attribute order.
pub open spec fn attr_block(attrs: Seq<Attribute>) -> Seq<char>
    decreases attrs.len(),
{
    if attrs.len() == 0 {
        Seq::empty()
    } else {
        attr_line(attrs[0]) + attr_block(attrs.drop_first())
    }
}

/// The region line, when the result carries a region.
pub open spec fn region_text(region: Option<Region>) -> Seq<char> {
    match region {
        Some(r) => "Region: width "@ + basis_points_text(r.width_bp as nat) + ", height "@
            + basis_points_text(r.height_bp as nat) + ", left "@ + basis_points_text(
            r.left_bp as nat,
        ) + ", top "@ + basis_points_text(r.top_bp as nat) + "\n"@,
        None => Seq::empty(),
    }
}

/// The line that renders the absence marker.
pub open spec fn absence_text() -> Seq<char> {
    "No analysis result is available for this object\n"@
}

/// The text block of one record: the object line, then either its
/// attribute and region lines or the explicit absence line.
pub open spec fn record_block(rec: BatchRecord) -> Seq<char> {
    match rec.result {
        Some(res) => "Object: "@ + rec.object.display_spec() + "\n"@ + attr_block(res.attributes@)
            + region_text(res.region),
        None => "Object: "@ + rec.object.display_spec() + "\n"@ + absence_text(),
    }
}

/// The flat text report: one block per record in record order, each
/// followed by a blank line.
pub open spec fn text_report_spec(records: Seq<BatchRecord>) -> Seq<char>
    decreases records.len(),
{
    if records.len() == 0 {
        Seq::empty()
    } else {
        record_block(records[0]) + "\n"@ + text_report_spec(records.drop_first())
    }
}

/// One table cell: the value of the record's attribute under the given
/// header, or the empty cell when the record is an absence record or
/// lacks that attribute.
pub open spec fn cell_spec(rec: BatchRecord, header: Seq<char>) -> Seq<char> {
    match rec.result {
        None => Seq::empty(),
        Some(res) => match attr_lookup(res.attributes@, header) {
            Some(a) => a.value@,
            None => Seq::empty(),
        },
    }
}

fn render_attr_line(a: &Attribute) -> (r: String)
    ensures
        r@ == attr_line(*a),
{
    let mut line = a.name.clone();
    line.append(": ");
    line.append(a.value.as_str());
    line.append(" (confidence: ");
    let conf = format_basis_points(a.confidence_bp);
    line.append(conf.as_str());
    line.append(")");
    line.append("\n");
    line
}

fn render_attrs_from(attrs: &Vec<Attribute>, i: usize) -> (r: String)
    requires
        i <= attrs@.len(),
    ensures
        r@ == attr_block(attrs@.skip(i as int)),
    decreases attrs@.len() - i,
{
    if i == attrs.len() {
        proof {
            assert(attrs@.skip(i as int) =~= Seq::<Attribute>::empty());
        }
        String::new()
    } else {
        let mut line = render_attr_line(&attrs[i]);
        let rest = render_attrs_from(attrs, i + 1);
        line.append(rest.as_str());
        proof {
            assert(attrs@.skip(i as int)[0] == attrs@[i as int]);
            assert(attrs@.skip(i as int).drop_first() =~= attrs@.skip(i as int + 1));
        }
        line
    }
}

fn render_region(region: &Option<Region>) -> (r: String)
    ensures
        r@ == region_text(*region),
{
    match region {
        Some(rg) => {
            let mut line = String::from_str("Region: width ");
            let w = format_basis_points(rg.width_bp);
            line.append(w.as_str());
            line.append(", height ");
            let h = format_basis_points(rg.height_bp);
            line.append(h.as_str());
            line.append(", left ");
            let l = format_basis_points(rg.left_bp);
            line.append(l.as_str());
            line.append(", top ");
            let t = format_basis_points(rg.top_bp);
            line.append(t.as_str());
            line.append("\n");
            line
        },
        None => String::new(),
    }
}

/// Renders the text block of one record.
pub fn render_record_block(rec: &BatchRecord) -> (r: String)
    ensures
        r@ == record_block(*rec),
{
    let mut block = String::from_str("Object: ");
    let name = rec.object.display();
    block.append(name.as_str());
    block.append("\n");
    match &rec.result {
        Some(res) => {
            let attrs = render_attrs_from(&res.attributes, 0);
            block.append(attrs.as_str());
            let region = render_region(&res.region);
            block.append(region.as_str());
            proof {
                assert(res.attributes@.skip(0) =~= res.attributes@);
            }
        },
        None => {
            block.append("No analysis result is available for this object\n");
        },
    }
    block
}

fn render_report_range(records: &Vec<BatchRecord>, i: usize, limit: usize) -> (r: String)
    requires
        i <= limit <= records@.len(),
    ensures
        r@ == text_report_spec(records@.subrange(i as int, limit as int)),
    decreases limit - i,
{
    if i == limit {
        proof {
            assert(records@.subrange(i as int, limit as int) =~= Seq::<BatchRecord>::empty());
        }
        String::new()
    } else {
        let mut block = render_record_block(&records[i]);
        block.append("\n");
        let rest = render_report_range(records, i + 1, limit);
        block.append(rest.as_str());
        proof {
            assert(records@.subrange(i as int, limit as int)[0] == records@[i as int]);
            assert(records@.subrange(i as int, limit as int).drop_first() =~= records@.subrange(
                i as int + 1,
                limit as int,
            ));
        }
        block
    }
}

/// Renders the whole flat text report, one block per record in record
/// order.
pub fn text_report(records: &Vec<BatchRecord>) -> (r: String)
    ensures
        r@ == text_report_spec(records@),
{
    let n = records.len();
    let r = render_report_range(records, 0, n);
    proof {
        assert(records@.subrange(0, n as int) =~= records@);
    }
    r
}

/// Renders the console preview: the first `cap` records when there are
/// more, with a flag saying the preview was truncated and the operator
/// should read the full persisted report.
pub fn text_preview(records: &Vec<BatchRecord>, cap: usize) -> (r: (String, bool))
    ensures
        r.1 == (records@.len() > cap),
        records@.len() <= cap ==> r.0@ == text_report_spec(records@),
        records@.len() > cap ==> r.0@ == text_report_spec(records@.take(cap as int)),
{
    let n = records.len();
    let truncated = n > cap;
    let limit = if truncated {
        cap
    } else {
        n
    };
    let text = render_report_range(records, 0, limit);
    proof {
        if truncated {
            assert(records@.subrange(0, cap as int) =~= records@.take(cap as int));
        } else {
            assert(records@.subrange(0, n as int) =~= records@);
        }
    }
    (text, truncated)
}

/// Builds the table rows: exactly one row per record, in record order,
/// one cell per header; an absent attribute renders as an empty cell
/// rather than dropping the row.
pub fn table_rows(records: &Vec<BatchRecord>, headers: &Vec<String>) -> (rows: Vec<Vec<String>>)
    ensures
        rows@.len() == records@.len(),
        forall|i: int| 0 <= i < rows@.len() ==> (#[trigger] rows@[i])@.len() == headers@.len(),
        forall|i: int, j: int|
            0 <= i < rows@.len() && 0 <= j < headers@.len() ==> (#[trigger] rows@[i]@[j])@
                == cell_spec(records@[i], headers@[j]@),
{
    let n = records.len();
    let h = headers.len();
    let mut rows: Vec<Vec<String>> = Vec::new();
    let mut i: usize = 0;
    while i < n
        invariant
            n == records@.len(),
            h == headers@.len(),
            i <= n,
            rows@.len() == i,
            forall|k: int| 0 <= k < i ==> (#[trigger] rows@[k])@.len() == headers@.len(),
            forall|k: int, j: int|
                0 <= k < i && 0 <= j < h ==> (#[trigger] rows@[k]@[j])@ == cell_spec(
                    records@[k],
                    headers@[j]@,
                ),
        decreases n - i,
    {
        let mut row: Vec<String> = Vec::new();
        let mut j: usize = 0;
        while j < h
            invariant
                h == headers@.len(),
                i < records@.len(),
                j <= h,
                row@.len() == j,
                forall|m: int|
                    0 <= m < j ==> (#[trigger] row@[m])@ == cell_spec(records@[i as int], headers@[m]@),
            decreases h - j,
        {
            match &records[i].result {
                None => {
                    row.push(String::new());
                },
                Some(res) => {
                    match res.find_attribute(headers[j].as_str()) {
                        Some(a) => {
                            row.push(a.value.clone());
                        },
                        None => {
                            row.push(String::new());
                        },
                    }
                },
            }
            j += 1;
        }
        rows.push(row);
        i += 1;
    }
    rows
}

/// Aggregates the records of one run into both report forms: the flat
/// text report and the table rows, each in record order.
pub fn aggregate(records: &Vec<BatchRecord>, headers: &Vec<String>) -> (r: (
    String,
    Vec<Vec<String>>,
))
    ensures
        r.0@ == text_report_spec(records@),
        r.1@.len() == records@.len(),
        forall|i: int| 0 <= i < r.1@.len() ==> (#[trigger] r.1@[i])@.len() == headers@.len(),
        forall|i: int, j: int|
            0 <= i < r.1@.len() && 0 <= j < headers@.len() ==> (#[trigger] r.1@[i]@[j])@
                == cell_spec(records@[i], headers@[j]@),
{
    let text = text_report(records);
    let rows = table_rows(records, headers);
    (text, rows)
}

/// The fixed header set of the voice-information table.
pub fn voice_report_headers() -> (r: Vec<String>)
    ensures
        r@.len() == 6,
        r@[0]@ == "Gender of Voice"@,
        r@[1]@ == "Voice ID"@,
        r@[2]@ == "Language Code"@,
        r@[3]@ == "Language Name"@,
        r@[4]@ == "Voice Name"@,
        r@[5]@ == "Supported Engine"@,
{
    let mut headers: Vec<String> = Vec::new();
    headers.push(String::from_str("Gender of Voice"));
    headers.push(String::from_str("Voice ID"));
    headers.push(String::from_str("Language Code"));
    headers.push(String::from_str("Language Name"));
    headers.push(String::from_str("Voice Name"));
    headers.push(String::from_str("Supported Engine"));
    headers
}

/// Whether `needle` occurs verbatim somewhere in `hay`.
pub open spec fn seq_contains(hay: Seq<char>, needle: Seq<char>) -> bool {
    exists|k: int|
        0 <= k && k + needle.len() <= hay.len() && #[trigger] hay.subrange(
            k,
            k + needle.len() as int,
        ) == needle
}

proof fn lemma_contains_shift_right(prefix: Seq<char>, hay: Seq<char>, needle: Seq<char>)
    requires
        seq_contains(hay, needle),
    ensures
        seq_contains(prefix + hay, needle),
{
    let k = choose|k: int|
        0 <= k && k + needle.len() <= hay.len() && #[trigger] hay.subrange(
            k,
            k + needle.len() as int,
        ) == needle;
    assert((prefix + hay).subrange(prefix.len() + k, prefix.len() + k + needle.len() as int)
        =~= needle);
}

proof fn lemma_contains_extend_right(hay: Seq<char>, suffix: Seq<char>, needle: Seq<char>)
    requires
        seq_contains(hay, needle),
    ensures
        seq_contains(hay + suffix, needle),
{
    let k = choose|k: int|
        0 <= k && k + needle.len() <= hay.len() && #[trigger] hay.subrange(
            k,
            k + needle.len() as int,
        ) == needle;
    assert((hay + suffix).subrange(k, k + needle.len() as int) =~= needle);
}

proof fn lemma_attr_line_contains_value(a: Attribute)
    ensures
        seq_contains(attr_line(a), a.value@),
{
    let k = a.name@.len() + ": "@.len();
    assert(attr_line(a).subrange(k as int, k + a.value@.len() as int) =~= a.value@);
}

proof fn lemma_attr_block_contains_value(attrs: Seq<Attribute>, i: int)
    requires
        0 <= i < attrs.len(),
    ensures
        seq_contains(attr_block(attrs), attrs[i].value@),
    decreases attrs.len(),
{
    if i == 0 {
        lemma_attr_line_contains_value(attrs[0]);
        lemma_contains_extend_right(attr_line(attrs[0]), attr_block(attrs.drop_first()), attrs[0].value@);
    } else {
        lemma_attr_block_contains_value(attrs.drop_first(), i - 1);
        assert(attrs.drop_first()[i - 1] == attrs[i]);
        lemma_contains_shift_right(
            attr_line(attrs[0]),
            attr_block(attrs.drop_first()),
            attrs[i].value@,
        );
    }
}

/// Round trip from record to reports: a record whose result is present
/// renders a text block in which every attribute's value occurs
/// verbatim, and its table cell under a header equals the attribute's
/// value verbatim whenever the record has that attribute — empty only
/// where it does not.
pub proof fn lemma_report_round_trip(
    rec: BatchRecord,
    res: crate::analysis::AnalysisResult,
    headers: Seq<Seq<char>>,
)
    requires
        rec.result == Some(res),
    ensures
        forall|i: int|
            0 <= i < res.attributes@.len() ==> seq_contains(
                record_block(rec),
                (#[trigger] res.attributes@[i]).value@,
            ),
        forall|j: int|
            0 <= j < headers.len() ==> match attr_lookup(res.attributes@, #[trigger] headers[j]) {
                Some(a) => cell_spec(rec, headers[j]) == a.value@,
                None => cell_spec(rec, headers[j]) == Seq::<char>::empty(),
            },
{
    assert forall|i: int| 0 <= i < res.attributes@.len() implies seq_contains(
        record_block(rec),
        (#[trigger] res.attributes@[i]).value@,
    ) by {
        lemma_attr_block_contains_value(res.attributes@, i);
        let prefix = "Object: "@ + rec.object.display_spec() + "\n"@;
        lemma_contains_shift_right(prefix, attr_block(res.attributes@), res.attributes@[i].value@);
        lemma_contains_extend_right(
            prefix + attr_block(res.attributes@),
            region_text(res.region),
            res.attributes@[i].value@,
        );
        assert(record_block(rec) == prefix + attr_block(res.attributes@) + region_text(res.region));
    }
}

} // verus!
