//! Offering import from CSV: reading the table, looking columns up by their
//! header names, and turning each row into offering fields.

use vstd::prelude::*;
use crate::hexcodec::{hex_encode, hex_lower};
use crate::float_text::{float_literal, is_float_literal, ascii_text, lower_ascii, is_ascii_chars, lower_ascii_chars};
use crate::text::{lemma_trimmed_shape, owned, chars_of, chars_eq, trim_str, trim_chars, trimmed, parse_i64, parse_i64_spec,
    string_from_chars, str_eq, opt_view, clone_opt, join, views, to_lowercase, unicode_lowercase, append_chars};

verus! {

/// What the `csv` crate reads from a document with its default settings
/// (a header row, records of equal length, no trimming): the header fields
/// and, for each later record, its fields or the text of its error; or the
/// text of the error met while reading the header.
pub uninterp spec fn csv_document(data: Seq<char>) -> Result<(Seq<Seq<char>>, Seq<Result<Seq<Seq<char>>, Seq<char>>>), Seq<char>>;

/// The view of one record as read.
pub open spec fn record_view(r: Result<Vec<String>, String>) -> Result<Seq<Seq<char>>, Seq<char>> {
    match r {
        Ok(fields) => Ok(views(fields@)),
        Err(e) => Err(e@),
    }
}

/// The view of a read document.
pub open spec fn document_view(
    r: Result<(Vec<String>, Vec<Result<Vec<String>, String>>), String>,
) -> Result<(Seq<Seq<char>>, Seq<Result<Seq<Seq<char>>, Seq<char>>>), Seq<char>> {
    match r {
        Ok((headers, records)) => Ok((views(headers@), records@.map_values(|x: Result<Vec<String>, String>| record_view(x)))),
        Err(e) => Err(e@),
    }
}

/// Reads a CSV document with `csv::Reader` and its default settings: the
/// header fields, then every record (its fields, or its error's text). The
/// result is named `csv_document` of the input.
#[verifier::external_body]
fn read_csv(data: &str) -> (r: Result<(Vec<String>, Vec<Result<Vec<String>, String>>), String>)
    ensures
        document_view(r) == csv_document(data@),
{
    let mut reader = csv::Reader::from_reader(data.as_bytes());
    let headers: Vec<String> = match reader.headers() {
        Ok(h) => h.iter().map(String::from).collect(),
        Err(e) => return Err(e.to_string()),
    };
    let mut records: Vec<Result<Vec<String>, String>> = Vec::new();
    for rec in reader.records() {
        records.push(match rec {
            Ok(fields) => Ok(fields.iter().map(String::from).collect()),
            Err(e) => Err(e.to_string()),
        });
    }
    Ok((headers, records))
}

/// The column names of a CSV document, trimmed.
pub struct CsvColumns {
    names: Vec<Vec<char>>,
}

impl View for CsvColumns {
    type V = Seq<Seq<char>>;

    closed spec fn view(&self) -> Seq<Seq<char>> {
        self.names@.map_values(|n: Vec<char>| n@)
    }
}

impl CsvColumns {
    /// The columns named by a header row.
    pub fn from_headers(headers: &[String]) -> (r: CsvColumns)
        ensures
            r@ == views(headers@).map_values(|h: Seq<char>| trimmed(h)),
    {
        let mut names: Vec<Vec<char>> = Vec::new();
        let mut i: usize = 0;
        while i < headers.len()
            invariant
                i <= headers@.len(),
                names@.len() == i,
                names@.map_values(|n: Vec<char>| n@) == views(headers@.subrange(0, i as int)).map_values(|h: Seq<char>| trimmed(h)),
            decreases headers@.len() - i,
        {
            let t = trim_str(headers[i].as_str());
            let ghost before = names@;
            names.push(t);
            i = i + 1;
            proof {
                let lhs = names@.map_values(|n: Vec<char>| n@);
                let rhs = views(headers@.subrange(0, i as int)).map_values(|h: Seq<char>| trimmed(h));
                let old_rhs = views(headers@.subrange(0, i - 1)).map_values(|h: Seq<char>| trimmed(h));
                assert forall|k: int| 0 <= k < i implies lhs[k] == rhs[k] by {
                    if k < i - 1 {
                        assert(lhs[k] == before.map_values(|n: Vec<char>| n@)[k]);
                        assert(rhs[k] == old_rhs[k]);
                    } else {
                        assert(rhs[k] == trimmed(headers@[k]@));
                    }
                }
                assert(lhs =~= rhs);
            }
        }
        assert(headers@.subrange(0, headers@.len() as int) =~= headers@);
        CsvColumns { names }
    }

    /// The index of the last column called `name`, as a header-to-index map
    /// built in column order keeps it.
    fn find(&self, name: &[char]) -> (r: Option<usize>)
        ensures
            match r {
                Some(i) => column_index(self@, name@) == Some(i as int),
                None => column_index(self@, name@) is None,
            },
    {
        let mut i: usize = self.names.len();
        assert(self@.subrange(0, i as int) =~= self@);
        while i > 0
            invariant
                i <= self.names@.len(),
                column_index(self@, name@) == column_index(self@.subrange(0, i as int), name@),
            decreases i,
        {
            let ghost pre = self@.subrange(0, i as int);
            assert(pre.drop_last() =~= self@.subrange(0, i - 1));
            assert(pre.last() == self.names@[i - 1]@);
            if chars_eq(self.names[i - 1].as_slice(), name) {
                return Some(i - 1);
            }
            i = i - 1;
        }
        None
    }
}

/// The index of the last column called `name`.
pub open spec fn column_index(names: Seq<Seq<char>>, name: Seq<char>) -> Option<int>
    decreases names.len(),
{
    if names.len() == 0 {
        None
    } else if names.last() == name {
        Some(names.len() - 1)
    } else {
        column_index(names.drop_last(), name)
    }
}

proof fn lemma_column_index_bound(names: Seq<Seq<char>>, name: Seq<char>)
    ensures
        column_index(names, name) matches Some(i) ==> 0 <= i < names.len(),
    decreases names.len(),
{
    if names.len() > 0 {
        lemma_column_index_bound(names.drop_last(), name);
    }
}

/// The trimmed names of a header row.
pub open spec fn column_names(headers: Seq<Seq<char>>) -> Seq<Seq<char>> {
    headers.map_values(|h: Seq<char>| trimmed(h))
}

/// No two columns share a name.
pub open spec fn distinct_names(names: Seq<Seq<char>>) -> bool {
    forall|i: int, j: int| 0 <= i < j < names.len() ==> #[trigger] names[i] != #[trigger] names[j]
}

proof fn lemma_column_index_unique(names: Seq<Seq<char>>, name: Seq<char>, i: int)
    requires
        distinct_names(names),
        0 <= i < names.len(),
        names[i] == name,
    ensures
        column_index(names, name) == Some(i),
    decreases names.len(),
{
    if i < names.len() - 1 {
        assert(names[i] != names[names.len() - 1]);
        let rest = names.drop_last();
        assert forall|a: int, b: int| 0 <= a < b < rest.len() implies #[trigger] rest[a] != #[trigger] rest[b] by {
            assert(rest[a] == names[a] && rest[b] == names[b]);
        }
        lemma_column_index_unique(rest, name, i);
    }
}

proof fn lemma_column_index_absent(names: Seq<Seq<char>>, name: Seq<char>)
    requires
        forall|i: int| 0 <= i < names.len() ==> #[trigger] names[i] != name,
    ensures
        column_index(names, name) is None,
    decreases names.len(),
{
    if names.len() > 0 {
        let rest = names.drop_last();
        assert(names.last() == names[names.len() - 1]);
        assert forall|i: int| 0 <= i < rest.len() implies #[trigger] rest[i] != name by {
            assert(rest[i] == names[i]);
        }
        lemma_column_index_absent(rest, name);
    }
}

/// The field of `record` under column `name`, if there is one.
pub open spec fn field(names: Seq<Seq<char>>, record: Seq<Seq<char>>, name: Seq<char>) -> Option<Seq<char>> {
    match column_index(names, name) {
        Some(i) => if 0 <= i < record.len() { Some(record[i]) } else { None },
        None => None,
    }
}

fn get_field<'a>(columns: &CsvColumns, record: &'a [String], name: &str) -> (r: Option<&'a String>)
    ensures
        match r {
            Some(v) => field(columns@, views(record@), name@) == Some(v@),
            None => field(columns@, views(record@), name@) is None,
        },
{
    let n = chars_of(name);
    match columns.find(n.as_slice()) {
        Some(i) => {
            if i < record.len() {
                Some(&record[i])
            } else {
                None
            }
        },
        None => None,
    }
}

/// A text column, empty when missing.
pub open spec fn col_str(names: Seq<Seq<char>>, record: Seq<Seq<char>>, name: Seq<char>) -> Seq<char> {
    match field(names, record, name) {
        Some(v) => v,
        None => Seq::empty(),
    }
}

/// An optional text column: trimmed, none when missing or blank.
pub open spec fn col_opt_str(names: Seq<Seq<char>>, record: Seq<Seq<char>>, name: Seq<char>) -> Option<Seq<char>> {
    match field(names, record, name) {
        Some(v) => if trimmed(v).len() == 0 { None } else { Some(trimmed(v)) },
        None => None,
    }
}

/// An optional number column: its trimmed text, none when the column is
/// missing or its text is not a number that `f64::from_str` accepts.
pub open spec fn col_opt_number(names: Seq<Seq<char>>, record: Seq<Seq<char>>, name: Seq<char>) -> Option<Seq<char>> {
    match field(names, record, name) {
        Some(v) => if float_literal(trimmed(v)) { Some(trimmed(v)) } else { None },
        None => None,
    }
}

/// A required number column: its trimmed text, or the error for a missing
/// column or for text that is not a number.
pub open spec fn col_number(names: Seq<Seq<char>>, record: Seq<Seq<char>>, name: Seq<char>) -> Result<Seq<char>, Seq<char>> {
    match field(names, record, name) {
        None => Err("Missing column '"@ + name + "'"@),
        Some(v) => if float_literal(trimmed(v)) {
            Ok(trimmed(v))
        } else {
            Err("Invalid number in column '"@ + name + "'"@)
        },
    }
}

/// An optional integer column: none when missing, blank or not an `i64`.
pub open spec fn col_opt_i64(names: Seq<Seq<char>>, record: Seq<Seq<char>>, name: Seq<char>) -> Option<i64> {
    match field(names, record, name) {
        Some(v) => if trimmed(v).len() == 0 { None } else { parse_i64_spec(trimmed(v)) },
        None => None,
    }
}

/// The words read as true in a boolean column.
pub open spec fn true_word(w: Seq<char>) -> bool {
    w == "true"@ || w == "1"@ || w == "yes"@
}

/// The lower-case form of a text, as `str::to_lowercase` gives it; for an
/// ASCII text, its ASCII letters folded to lower case.
pub open spec fn lowercase_text(t: Seq<char>) -> Seq<char> {
    if ascii_text(t) { lower_ascii(t) } else { unicode_lowercase(t) }
}

/// A boolean column: its trimmed, lowercased text is "true", "1" or "yes".
pub open spec fn col_bool(names: Seq<Seq<char>>, record: Seq<Seq<char>>, name: Seq<char>) -> bool {
    match field(names, record, name) {
        Some(v) => true_word(lowercase_text(trimmed(v))),
        None => false,
    }
}

/// The billing unit column, "month" when missing or empty.
pub open spec fn col_billing_unit(names: Seq<Seq<char>>, record: Seq<Seq<char>>, name: Seq<char>) -> Seq<char> {
    if col_str(names, record, name).len() == 0 { "month"@ } else { col_str(names, record, name) }
}

/// `s` split at every comma, as `str::split(',')` gives it.
pub open spec fn split_commas(s: Seq<char>) -> Seq<Seq<char>>
    decreases s.len(),
{
    if s.len() == 0 {
        seq![Seq::empty()]
    } else if s.last() == ',' {
        split_commas(s.drop_last()).push(Seq::empty())
    } else {
        let p = split_commas(s.drop_last());
        p.update(p.len() - 1, p.last().push(s.last()))
    }
}

/// The trimmed pieces that are not blank.
pub open spec fn kept_pieces(pieces: Seq<Seq<char>>) -> Seq<Seq<char>>
    decreases pieces.len(),
{
    if pieces.len() == 0 {
        Seq::empty()
    } else if trimmed(pieces.last()).len() == 0 {
        kept_pieces(pieces.drop_last())
    } else {
        kept_pieces(pieces.drop_last()).push(trimmed(pieces.last()))
    }
}

/// The items of a comma-separated list, trimmed, blanks left out.
pub open spec fn list_items(s: Seq<char>) -> Seq<Seq<char>> {
    kept_pieces(split_commas(s))
}

/// A list column: its items joined by "," again, none when missing or when
/// no item is left.
pub open spec fn col_opt_list(names: Seq<Seq<char>>, record: Seq<Seq<char>>, name: Seq<char>) -> Option<Seq<char>> {
    match field(names, record, name) {
        Some(v) => if list_items(v).len() == 0 { None } else { Some(join(list_items(v), ","@)) },
        None => None,
    }
}

proof fn lemma_split_nonempty(s: Seq<char>)
    ensures
        split_commas(s).len() >= 1,
    decreases s.len(),
{
    if s.len() > 0 {
        lemma_split_nonempty(s.drop_last());
    }
}

/// Joins character lists with a separator.
fn join_lists(items: &Vec<Vec<char>>, sep: &[char]) -> (r: Vec<char>)
    ensures
        r@ == join(items@.map_values(|x: Vec<char>| x@), sep@),
{
    let ghost all = items@.map_values(|x: Vec<char>| x@);
    let mut r: Vec<char> = Vec::new();
    let mut i: usize = 0;
    while i < items.len()
        invariant
            i <= items@.len(),
            all == items@.map_values(|x: Vec<char>| x@),
            r@ == join(all.subrange(0, i as int), sep@),
        decreases items@.len() - i,
    {
        assert(all.subrange(0, i + 1).drop_last() =~= all.subrange(0, i as int));
        assert(all.subrange(0, i + 1).last() == items@[i as int]@);
        if i > 0 {
            append_chars(&mut r, sep);
        }
        append_chars(&mut r, items[i].as_slice());
        i = i + 1;
        if i == 1 {
            assert(all.subrange(0, 0) =~= Seq::<Seq<char>>::empty());
        }
    }
    assert(all.subrange(0, items@.len() as int) =~= all);
    r
}

fn list_items_exec(s: &[char]) -> (r: Vec<Vec<char>>)
    ensures
        r@.map_values(|x: Vec<char>| x@) == list_items(s@),
{
    let mut items: Vec<Vec<char>> = Vec::new();
    let mut current: Vec<char> = Vec::new();
    let ghost mut done: Seq<Seq<char>> = Seq::empty();
    let mut i: usize = 0;
    while i < s.len()
        invariant
            i <= s@.len(),
            split_commas(s@.subrange(0, i as int)) == done.push(current@),
            items@.map_values(|x: Vec<char>| x@) == kept_pieces(done),
        decreases s@.len() - i,
    {
        let ghost pre = s@.subrange(0, i as int);
        let ghost next = s@.subrange(0, i + 1);
        assert(next.drop_last() =~= pre);
        assert(next.last() == s@[i as int]);
        let c = s[i];
        if c == ',' {
            let t = trim_chars(current.as_slice());
            let ghost piece = current@;
            if t.len() > 0 {
                items.push(t);
            }
            proof {
                assert(done.push(piece).drop_last() =~= done);
                assert(items@.map_values(|x: Vec<char>| x@) =~= kept_pieces(done.push(piece)));
                done = done.push(piece);
            }
            current = Vec::new();
            assert(split_commas(next) =~= done.push(current@));
        } else {
            current.push(c);
            assert(split_commas(next) =~= done.push(current@));
        }
        i = i + 1;
    }
    assert(s@.subrange(0, s@.len() as int) =~= s@);
    let t = trim_chars(current.as_slice());
    let ghost piece = current@;
    if t.len() > 0 {
        items.push(t);
    }
    proof {
        assert(done.push(piece).drop_last() =~= done);
        assert(items@.map_values(|x: Vec<char>| x@) =~= kept_pieces(done.push(piece)));
    }
    items
}

fn get_str(columns: &CsvColumns, record: &[String], name: &str) -> (r: String)
    ensures
        r@ == col_str(columns@, views(record@), name@),
{
    match get_field(columns, record, name) {
        Some(v) => v.clone(),
        None => String::new(),
    }
}

fn get_opt_str(columns: &CsvColumns, record: &[String], name: &str) -> (r: Option<String>)
    ensures
        opt_view(r) == col_opt_str(columns@, views(record@), name@),
{
    match get_field(columns, record, name) {
        Some(v) => {
            let t = trim_str(v.as_str());
            if t.len() == 0 {
                None
            } else {
                Some(string_from_chars(t.as_slice()))
            }
        },
        None => None,
    }
}

fn get_opt_number(columns: &CsvColumns, record: &[String], name: &str) -> (r: Option<String>)
    ensures
        opt_view(r) == col_opt_number(columns@, views(record@), name@),
{
    match get_field(columns, record, name) {
        Some(v) => {
            let t = trim_str(v.as_str());
            if is_float_literal(t.as_slice()) {
                Some(string_from_chars(t.as_slice()))
            } else {
                None
            }
        },
        None => None,
    }
}

fn get_number(columns: &CsvColumns, record: &[String], name: &str) -> (r: Result<String, String>)
    ensures
        match r {
            Ok(t) => col_number(columns@, views(record@), name@) == Ok::<Seq<char>, Seq<char>>(t@),
            Err(e) => col_number(columns@, views(record@), name@) == Err::<Seq<char>, Seq<char>>(e@),
        },
{
    match get_field(columns, record, name) {
        None => {
            let mut m = owned("Missing column '");
            m.append(name);
            m.append("'");
            Err(m)
        },
        Some(v) => {
            let t = trim_str(v.as_str());
            if is_float_literal(t.as_slice()) {
                Ok(string_from_chars(t.as_slice()))
            } else {
                let mut m = owned("Invalid number in column '");
                m.append(name);
                m.append("'");
                Err(m)
            }
        },
    }
}

fn get_opt_i64(columns: &CsvColumns, record: &[String], name: &str) -> (r: Option<i64>)
    ensures
        r == col_opt_i64(columns@, views(record@), name@),
{
    match get_field(columns, record, name) {
        Some(v) => {
            let t = trim_str(v.as_str());
            if t.len() == 0 {
                None
            } else {
                parse_i64(t.as_slice())
            }
        },
        None => None,
    }
}

fn get_bool(columns: &CsvColumns, record: &[String], name: &str) -> (r: bool)
    ensures
        r == col_bool(columns@, views(record@), name@),
{
    match get_field(columns, record, name) {
        Some(v) => {
            let t = trim_str(v.as_str());
            let lower = if is_ascii_chars(t.as_slice()) {
                string_from_chars(lower_ascii_chars(t.as_slice()).as_slice())
            } else {
                let ts = string_from_chars(t.as_slice());
                to_lowercase(ts.as_str())
            };
            str_eq(lower.as_str(), "true") || str_eq(lower.as_str(), "1") || str_eq(lower.as_str(), "yes")
        },
        None => false,
    }
}

fn get_billing_unit(columns: &CsvColumns, record: &[String], name: &str) -> (r: String)
    ensures
        r@ == col_billing_unit(columns@, views(record@), name@),
{
    let unit = get_str(columns, record, name);
    if unit.as_str().is_empty() {
        owned("month")
    } else {
        unit
    }
}

fn get_opt_list(columns: &CsvColumns, record: &[String], name: &str) -> (r: Option<String>)
    ensures
        opt_view(r) == col_opt_list(columns@, views(record@), name@),
{
    match get_field(columns, record, name) {
        Some(v) => {
            let chars = chars_of(v.as_str());
            let items = list_items_exec(chars.as_slice());
            if items.len() == 0 {
                None
            } else {
                let sep = chars_of(",");
                let joined = join_lists(&items, sep.as_slice());
                Some(string_from_chars(joined.as_slice()))
            }
        },
        None => None,
    }
}

/// One CSV row of offering data, before its numbers with a fractional part
/// are converted: those columns are kept as their trimmed text, which
/// `f64::from_str` accepts.
pub struct CsvOffering {
    pub offering_id: String,
    pub offer_name: String,
    pub description: Option<String>,
    pub product_page_url: Option<String>,
    pub currency: String,
    /// Trimmed text of a required number column.
    pub monthly_price_text: String,
    /// Trimmed text of a required number column.
    pub setup_fee_text: String,
    pub visibility: String,
    pub product_type: String,
    pub virtualization_type: Option<String>,
    pub billing_interval: String,
    pub billing_unit: String,
    pub pricing_model: Option<String>,
    /// Trimmed text of an optional number column; none when missing or not a number.
    pub price_per_unit_text: Option<String>,
    pub included_units: Option<i64>,
    /// Trimmed text of an optional number column; none when missing or not a number.
    pub overage_price_per_unit_text: Option<String>,
    pub stripe_metered_price_id: Option<String>,
    pub is_subscription: bool,
    pub subscription_interval_days: Option<i64>,
    pub stock_status: String,
    pub processor_brand: Option<String>,
    pub processor_amount: Option<i64>,
    pub processor_cores: Option<i64>,
    pub processor_speed: Option<String>,
    pub processor_name: Option<String>,
    pub memory_error_correction: Option<String>,
    pub memory_type: Option<String>,
    pub memory_amount: Option<String>,
    pub hdd_amount: Option<i64>,
    pub total_hdd_capacity: Option<String>,
    pub ssd_amount: Option<i64>,
    pub total_ssd_capacity: Option<String>,
    pub unmetered_bandwidth: bool,
    pub uplink_speed: Option<String>,
    pub traffic: Option<i64>,
    pub datacenter_country: String,
    pub datacenter_city: String,
    /// Trimmed text of an optional number column; none when missing or not a number.
    pub datacenter_latitude_text: Option<String>,
    /// Trimmed text of an optional number column; none when missing or not a number.
    pub datacenter_longitude_text: Option<String>,
    pub control_panel: Option<String>,
    pub gpu_name: Option<String>,
    pub gpu_count: Option<i64>,
    pub gpu_memory_gb: Option<i64>,
    pub min_contract_hours: Option<i64>,
    pub max_contract_hours: Option<i64>,
    pub payment_methods: Option<String>,
    pub features: Option<String>,
    pub operating_systems: Option<String>,
    pub is_draft: bool,
    pub offering_source: Option<String>,
    pub external_checkout_url: Option<String>,
    pub provisioner_type: Option<String>,
    pub provisioner_config: Option<String>,
    pub template_name: Option<String>,
    pub agent_pool_id: Option<String>,
    pub post_provision_script: Option<String>,
}

/// The mathematical content of a `CsvOffering`.
pub struct CsvOfferingView {
    pub offering_id: Seq<char>,
    pub offer_name: Seq<char>,
    pub description: Option<Seq<char>>,
    pub product_page_url: Option<Seq<char>>,
    pub currency: Seq<char>,
    pub monthly_price_text: Seq<char>,
    pub setup_fee_text: Seq<char>,
    pub visibility: Seq<char>,
    pub product_type: Seq<char>,
    pub virtualization_type: Option<Seq<char>>,
    pub billing_interval: Seq<char>,
    pub billing_unit: Seq<char>,
    pub pricing_model: Option<Seq<char>>,
    pub price_per_unit_text: Option<Seq<char>>,
    pub included_units: Option<i64>,
    pub overage_price_per_unit_text: Option<Seq<char>>,
    pub stripe_metered_price_id: Option<Seq<char>>,
    pub is_subscription: bool,
    pub subscription_interval_days: Option<i64>,
    pub stock_status: Seq<char>,
    pub processor_brand: Option<Seq<char>>,
    pub processor_amount: Option<i64>,
    pub processor_cores: Option<i64>,
    pub processor_speed: Option<Seq<char>>,
    pub processor_name: Option<Seq<char>>,
    pub memory_error_correction: Option<Seq<char>>,
    pub memory_type: Option<Seq<char>>,
    pub memory_amount: Option<Seq<char>>,
    pub hdd_amount: Option<i64>,
    pub total_hdd_capacity: Option<Seq<char>>,
    pub ssd_amount: Option<i64>,
    pub total_ssd_capacity: Option<Seq<char>>,
    pub unmetered_bandwidth: bool,
    pub uplink_speed: Option<Seq<char>>,
    pub traffic: Option<i64>,
    pub datacenter_country: Seq<char>,
    pub datacenter_city: Seq<char>,
    pub datacenter_latitude_text: Option<Seq<char>>,
    pub datacenter_longitude_text: Option<Seq<char>>,
    pub control_panel: Option<Seq<char>>,
    pub gpu_name: Option<Seq<char>>,
    pub gpu_count: Option<i64>,
    pub gpu_memory_gb: Option<i64>,
    pub min_contract_hours: Option<i64>,
    pub max_contract_hours: Option<i64>,
    pub payment_methods: Option<Seq<char>>,
    pub features: Option<Seq<char>>,
    pub operating_systems: Option<Seq<char>>,
    pub is_draft: bool,
    pub offering_source: Option<Seq<char>>,
    pub external_checkout_url: Option<Seq<char>>,
    pub provisioner_type: Option<Seq<char>>,
    pub provisioner_config: Option<Seq<char>>,
    pub template_name: Option<Seq<char>>,
    pub agent_pool_id: Option<Seq<char>>,
    pub post_provision_script: Option<Seq<char>>,
}

impl View for CsvOffering {
    type V = CsvOfferingView;

    open spec fn view(&self) -> CsvOfferingView {
        CsvOfferingView {
            offering_id: self.offering_id@,
            offer_name: self.offer_name@,
            description: opt_view(self.description),
            product_page_url: opt_view(self.product_page_url),
            currency: self.currency@,
            monthly_price_text: self.monthly_price_text@,
            setup_fee_text: self.setup_fee_text@,
            visibility: self.visibility@,
            product_type: self.product_type@,
            virtualization_type: opt_view(self.virtualization_type),
            billing_interval: self.billing_interval@,
            billing_unit: self.billing_unit@,
            pricing_model: opt_view(self.pricing_model),
            price_per_unit_text: opt_view(self.price_per_unit_text),
            included_units: self.included_units,
            overage_price_per_unit_text: opt_view(self.overage_price_per_unit_text),
            stripe_metered_price_id: opt_view(self.stripe_metered_price_id),
            is_subscription: self.is_subscription,
            subscription_interval_days: self.subscription_interval_days,
            stock_status: self.stock_status@,
            processor_brand: opt_view(self.processor_brand),
            processor_amount: self.processor_amount,
            processor_cores: self.processor_cores,
            processor_speed: opt_view(self.processor_speed),
            processor_name: opt_view(self.processor_name),
            memory_error_correction: opt_view(self.memory_error_correction),
            memory_type: opt_view(self.memory_type),
            memory_amount: opt_view(self.memory_amount),
            hdd_amount: self.hdd_amount,
            total_hdd_capacity: opt_view(self.total_hdd_capacity),
            ssd_amount: self.ssd_amount,
            total_ssd_capacity: opt_view(self.total_ssd_capacity),
            unmetered_bandwidth: self.unmetered_bandwidth,
            uplink_speed: opt_view(self.uplink_speed),
            traffic: self.traffic,
            datacenter_country: self.datacenter_country@,
            datacenter_city: self.datacenter_city@,
            datacenter_latitude_text: opt_view(self.datacenter_latitude_text),
            datacenter_longitude_text: opt_view(self.datacenter_longitude_text),
            control_panel: opt_view(self.control_panel),
            gpu_name: opt_view(self.gpu_name),
            gpu_count: self.gpu_count,
            gpu_memory_gb: self.gpu_memory_gb,
            min_contract_hours: self.min_contract_hours,
            max_contract_hours: self.max_contract_hours,
            payment_methods: opt_view(self.payment_methods),
            features: opt_view(self.features),
            operating_systems: opt_view(self.operating_systems),
            is_draft: self.is_draft,
            offering_source: opt_view(self.offering_source),
            external_checkout_url: opt_view(self.external_checkout_url),
            provisioner_type: opt_view(self.provisioner_type),
            provisioner_config: opt_view(self.provisioner_config),
            template_name: opt_view(self.template_name),
            agent_pool_id: opt_view(self.agent_pool_id),
            post_provision_script: opt_view(self.post_provision_script),
        }
    }
}

/// The offering a CSV row describes, given the trimmed column names and
/// the texts of its two required number columns.
pub open spec fn row_offering(names: Seq<Seq<char>>, record: Seq<Seq<char>>, monthly_price: Seq<char>, setup_fee: Seq<char>) -> CsvOfferingView {
    CsvOfferingView {
        offering_id: col_str(names, record, "offering_id"@),
        offer_name: col_str(names, record, "offer_name"@),
        description: col_opt_str(names, record, "description"@),
        product_page_url: col_opt_str(names, record, "product_page_url"@),
        currency: col_str(names, record, "currency"@),
        monthly_price_text: monthly_price,
        setup_fee_text: setup_fee,
        visibility: col_str(names, record, "visibility"@),
        product_type: col_str(names, record, "product_type"@),
        virtualization_type: col_opt_str(names, record, "virtualization_type"@),
        billing_interval: col_str(names, record, "billing_interval"@),
        billing_unit: col_billing_unit(names, record, "billing_unit"@),
        pricing_model: col_opt_str(names, record, "pricing_model"@),
        price_per_unit_text: col_opt_number(names, record, "price_per_unit"@),
        included_units: col_opt_i64(names, record, "included_units"@),
        overage_price_per_unit_text: col_opt_number(names, record, "overage_price_per_unit"@),
        stripe_metered_price_id: col_opt_str(names, record, "stripe_metered_price_id"@),
        is_subscription: col_bool(names, record, "is_subscription"@),
        subscription_interval_days: col_opt_i64(names, record, "subscription_interval_days"@),
        stock_status: col_str(names, record, "stock_status"@),
        processor_brand: col_opt_str(names, record, "processor_brand"@),
        processor_amount: col_opt_i64(names, record, "processor_amount"@),
        processor_cores: col_opt_i64(names, record, "processor_cores"@),
        processor_speed: col_opt_str(names, record, "processor_speed"@),
        processor_name: col_opt_str(names, record, "processor_name"@),
        memory_error_correction: col_opt_str(names, record, "memory_error_correction"@),
        memory_type: col_opt_str(names, record, "memory_type"@),
        memory_amount: col_opt_str(names, record, "memory_amount"@),
        hdd_amount: col_opt_i64(names, record, "hdd_amount"@),
        total_hdd_capacity: col_opt_str(names, record, "total_hdd_capacity"@),
        ssd_amount: col_opt_i64(names, record, "ssd_amount"@),
        total_ssd_capacity: col_opt_str(names, record, "total_ssd_capacity"@),
        unmetered_bandwidth: col_bool(names, record, "unmetered_bandwidth"@),
        uplink_speed: col_opt_str(names, record, "uplink_speed"@),
        traffic: col_opt_i64(names, record, "traffic"@),
        datacenter_country: col_str(names, record, "datacenter_country"@),
        datacenter_city: col_str(names, record, "datacenter_city"@),
        datacenter_latitude_text: col_opt_number(names, record, "datacenter_latitude"@),
        datacenter_longitude_text: col_opt_number(names, record, "datacenter_longitude"@),
        control_panel: col_opt_str(names, record, "control_panel"@),
        gpu_name: col_opt_str(names, record, "gpu_name"@),
        gpu_count: col_opt_i64(names, record, "gpu_count"@),
        gpu_memory_gb: col_opt_i64(names, record, "gpu_memory_gb"@),
        min_contract_hours: col_opt_i64(names, record, "min_contract_hours"@),
        max_contract_hours: col_opt_i64(names, record, "max_contract_hours"@),
        payment_methods: col_opt_list(names, record, "payment_methods"@),
        features: col_opt_list(names, record, "features"@),
        operating_systems: col_opt_list(names, record, "operating_systems"@),
        is_draft: col_bool(names, record, "is_draft"@),
        offering_source: col_opt_str(names, record, "offering_source"@),
        external_checkout_url: col_opt_str(names, record, "external_checkout_url"@),
        provisioner_type: col_opt_str(names, record, "provisioner_type"@),
        provisioner_config: col_opt_str(names, record, "provisioner_config"@),
        template_name: col_opt_str(names, record, "template_name"@),
        agent_pool_id: col_opt_str(names, record, "agent_pool_id"@),
        post_provision_script: col_opt_str(names, record, "post_provision_script"@),
    }
}

/// What one CSV row gives: `offering_id` and `offer_name` must hold more
/// than whitespace, then `monthly_price` and `setup_fee` must be present and
/// read as numbers, checked in that order; otherwise the offering.
pub open spec fn record_result(names: Seq<Seq<char>>, record: Seq<Seq<char>>) -> Result<CsvOfferingView, Seq<char>> {
    if trimmed(col_str(names, record, "offering_id"@)).len() == 0 {
        Err("offering_id is required"@)
    } else if trimmed(col_str(names, record, "offer_name"@)).len() == 0 {
        Err("offer_name is required"@)
    } else {
        match col_number(names, record, "monthly_price"@) {
            Err(e) => Err(e),
            Ok(monthly) => match col_number(names, record, "setup_fee"@) {
                Err(e) => Err(e),
                Ok(setup) => Ok(row_offering(names, record, monthly, setup)),
            },
        }
    }
}

/// Parse a single CSV record into an offering using header-based column
/// lookup.
pub fn parse_csv_record(columns: &CsvColumns, record: &[String]) -> (r: Result<CsvOffering, String>)
    ensures
        prepared_view(r) == record_result(columns@, views(record@)),
{
    let offering_id = get_str(columns, record, "offering_id");
    let offer_name = get_str(columns, record, "offer_name");
    let id_trim = trim_str(offering_id.as_str());
    if id_trim.len() == 0 {
        return Err(owned("offering_id is required"));
    }
    let name_trim = trim_str(offer_name.as_str());
    if name_trim.len() == 0 {
        return Err(owned("offer_name is required"));
    }
    let monthly_price_text = match get_number(columns, record, "monthly_price") {
        Err(e) => return Err(e),
        Ok(t) => t,
    };
    let setup_fee_text = match get_number(columns, record, "setup_fee") {
        Err(e) => return Err(e),
        Ok(t) => t,
    };
    let o = CsvOffering {
        offering_id,
        offer_name,
        description: get_opt_str(columns, record, "description"),
        product_page_url: get_opt_str(columns, record, "product_page_url"),
        currency: get_str(columns, record, "currency"),
        monthly_price_text,
        setup_fee_text,
        visibility: get_str(columns, record, "visibility"),
        product_type: get_str(columns, record, "product_type"),
        virtualization_type: get_opt_str(columns, record, "virtualization_type"),
        billing_interval: get_str(columns, record, "billing_interval"),
        billing_unit: get_billing_unit(columns, record, "billing_unit"),
        pricing_model: get_opt_str(columns, record, "pricing_model"),
        price_per_unit_text: get_opt_number(columns, record, "price_per_unit"),
        included_units: get_opt_i64(columns, record, "included_units"),
        overage_price_per_unit_text: get_opt_number(columns, record, "overage_price_per_unit"),
        stripe_metered_price_id: get_opt_str(columns, record, "stripe_metered_price_id"),
        is_subscription: get_bool(columns, record, "is_subscription"),
        subscription_interval_days: get_opt_i64(columns, record, "subscription_interval_days"),
        stock_status: get_str(columns, record, "stock_status"),
        processor_brand: get_opt_str(columns, record, "processor_brand"),
        processor_amount: get_opt_i64(columns, record, "processor_amount"),
        processor_cores: get_opt_i64(columns, record, "processor_cores"),
        processor_speed: get_opt_str(columns, record, "processor_speed"),
        processor_name: get_opt_str(columns, record, "processor_name"),
        memory_error_correction: get_opt_str(columns, record, "memory_error_correction"),
        memory_type: get_opt_str(columns, record, "memory_type"),
        memory_amount: get_opt_str(columns, record, "memory_amount"),
        hdd_amount: get_opt_i64(columns, record, "hdd_amount"),
        total_hdd_capacity: get_opt_str(columns, record, "total_hdd_capacity"),
        ssd_amount: get_opt_i64(columns, record, "ssd_amount"),
        total_ssd_capacity: get_opt_str(columns, record, "total_ssd_capacity"),
        unmetered_bandwidth: get_bool(columns, record, "unmetered_bandwidth"),
        uplink_speed: get_opt_str(columns, record, "uplink_speed"),
        traffic: get_opt_i64(columns, record, "traffic"),
        datacenter_country: get_str(columns, record, "datacenter_country"),
        datacenter_city: get_str(columns, record, "datacenter_city"),
        datacenter_latitude_text: get_opt_number(columns, record, "datacenter_latitude"),
        datacenter_longitude_text: get_opt_number(columns, record, "datacenter_longitude"),
        control_panel: get_opt_str(columns, record, "control_panel"),
        gpu_name: get_opt_str(columns, record, "gpu_name"),
        gpu_count: get_opt_i64(columns, record, "gpu_count"),
        gpu_memory_gb: get_opt_i64(columns, record, "gpu_memory_gb"),
        min_contract_hours: get_opt_i64(columns, record, "min_contract_hours"),
        max_contract_hours: get_opt_i64(columns, record, "max_contract_hours"),
        payment_methods: get_opt_list(columns, record, "payment_methods"),
        features: get_opt_list(columns, record, "features"),
        operating_systems: get_opt_list(columns, record, "operating_systems"),
        is_draft: get_bool(columns, record, "is_draft"),
        offering_source: get_opt_str(columns, record, "offering_source"),
        external_checkout_url: get_opt_str(columns, record, "external_checkout_url"),
        provisioner_type: get_opt_str(columns, record, "provisioner_type"),
        provisioner_config: get_opt_str(columns, record, "provisioner_config"),
        template_name: get_opt_str(columns, record, "template_name"),
        agent_pool_id: get_opt_str(columns, record, "agent_pool_id"),
        post_provision_script: get_opt_str(columns, record, "post_provision_script"),
    };
    Ok(o)
}


#[verifier::rlimit(60)]
proof fn lemma_same_fields_same_row(n1: Seq<Seq<char>>, r1: Seq<Seq<char>>, n2: Seq<Seq<char>>, r2: Seq<Seq<char>>)
    requires
        forall|name: Seq<char>| #[trigger] field(n1, r1, name) == field(n2, r2, name),
    ensures
        record_result(n1, r1) == record_result(n2, r2),
{
    assert(col_str(n1, r1, "offering_id"@) == col_str(n2, r2, "offering_id"@)) by { assert(field(n1, r1, "offering_id"@) == field(n2, r2, "offering_id"@)); }
    assert(col_str(n1, r1, "offer_name"@) == col_str(n2, r2, "offer_name"@)) by { assert(field(n1, r1, "offer_name"@) == field(n2, r2, "offer_name"@)); }
    assert(col_opt_str(n1, r1, "description"@) == col_opt_str(n2, r2, "description"@)) by { assert(field(n1, r1, "description"@) == field(n2, r2, "description"@)); }
    assert(col_opt_str(n1, r1, "product_page_url"@) == col_opt_str(n2, r2, "product_page_url"@)) by { assert(field(n1, r1, "product_page_url"@) == field(n2, r2, "product_page_url"@)); }
    assert(col_str(n1, r1, "currency"@) == col_str(n2, r2, "currency"@)) by { assert(field(n1, r1, "currency"@) == field(n2, r2, "currency"@)); }
    assert(col_str(n1, r1, "visibility"@) == col_str(n2, r2, "visibility"@)) by { assert(field(n1, r1, "visibility"@) == field(n2, r2, "visibility"@)); }
    assert(col_str(n1, r1, "product_type"@) == col_str(n2, r2, "product_type"@)) by { assert(field(n1, r1, "product_type"@) == field(n2, r2, "product_type"@)); }
    assert(col_opt_str(n1, r1, "virtualization_type"@) == col_opt_str(n2, r2, "virtualization_type"@)) by { assert(field(n1, r1, "virtualization_type"@) == field(n2, r2, "virtualization_type"@)); }
    assert(col_str(n1, r1, "billing_interval"@) == col_str(n2, r2, "billing_interval"@)) by { assert(field(n1, r1, "billing_interval"@) == field(n2, r2, "billing_interval"@)); }
    assert(col_billing_unit(n1, r1, "billing_unit"@) == col_billing_unit(n2, r2, "billing_unit"@)) by { assert(field(n1, r1, "billing_unit"@) == field(n2, r2, "billing_unit"@)); }
    assert(col_opt_str(n1, r1, "pricing_model"@) == col_opt_str(n2, r2, "pricing_model"@)) by { assert(field(n1, r1, "pricing_model"@) == field(n2, r2, "pricing_model"@)); }
    assert(col_opt_number(n1, r1, "price_per_unit"@) == col_opt_number(n2, r2, "price_per_unit"@)) by { assert(field(n1, r1, "price_per_unit"@) == field(n2, r2, "price_per_unit"@)); }
    assert(col_opt_i64(n1, r1, "included_units"@) == col_opt_i64(n2, r2, "included_units"@)) by { assert(field(n1, r1, "included_units"@) == field(n2, r2, "included_units"@)); }
    assert(col_opt_number(n1, r1, "overage_price_per_unit"@) == col_opt_number(n2, r2, "overage_price_per_unit"@)) by { assert(field(n1, r1, "overage_price_per_unit"@) == field(n2, r2, "overage_price_per_unit"@)); }
    assert(col_opt_str(n1, r1, "stripe_metered_price_id"@) == col_opt_str(n2, r2, "stripe_metered_price_id"@)) by { assert(field(n1, r1, "stripe_metered_price_id"@) == field(n2, r2, "stripe_metered_price_id"@)); }
    assert(col_bool(n1, r1, "is_subscription"@) == col_bool(n2, r2, "is_subscription"@)) by { assert(field(n1, r1, "is_subscription"@) == field(n2, r2, "is_subscription"@)); }
    assert(col_opt_i64(n1, r1, "subscription_interval_days"@) == col_opt_i64(n2, r2, "subscription_interval_days"@)) by { assert(field(n1, r1, "subscription_interval_days"@) == field(n2, r2, "subscription_interval_days"@)); }
    assert(col_str(n1, r1, "stock_status"@) == col_str(n2, r2, "stock_status"@)) by { assert(field(n1, r1, "stock_status"@) == field(n2, r2, "stock_status"@)); }
    assert(col_opt_str(n1, r1, "processor_brand"@) == col_opt_str(n2, r2, "processor_brand"@)) by { assert(field(n1, r1, "processor_brand"@) == field(n2, r2, "processor_brand"@)); }
    assert(col_opt_i64(n1, r1, "processor_amount"@) == col_opt_i64(n2, r2, "processor_amount"@)) by { assert(field(n1, r1, "processor_amount"@) == field(n2, r2, "processor_amount"@)); }
    assert(col_opt_i64(n1, r1, "processor_cores"@) == col_opt_i64(n2, r2, "processor_cores"@)) by { assert(field(n1, r1, "processor_cores"@) == field(n2, r2, "processor_cores"@)); }
    assert(col_opt_str(n1, r1, "processor_speed"@) == col_opt_str(n2, r2, "processor_speed"@)) by { assert(field(n1, r1, "processor_speed"@) == field(n2, r2, "processor_speed"@)); }
    assert(col_opt_str(n1, r1, "processor_name"@) == col_opt_str(n2, r2, "processor_name"@)) by { assert(field(n1, r1, "processor_name"@) == field(n2, r2, "processor_name"@)); }
    assert(col_opt_str(n1, r1, "memory_error_correction"@) == col_opt_str(n2, r2, "memory_error_correction"@)) by { assert(field(n1, r1, "memory_error_correction"@) == field(n2, r2, "memory_error_correction"@)); }
    assert(col_opt_str(n1, r1, "memory_type"@) == col_opt_str(n2, r2, "memory_type"@)) by { assert(field(n1, r1, "memory_type"@) == field(n2, r2, "memory_type"@)); }
    assert(col_opt_str(n1, r1, "memory_amount"@) == col_opt_str(n2, r2, "memory_amount"@)) by { assert(field(n1, r1, "memory_amount"@) == field(n2, r2, "memory_amount"@)); }
    assert(col_opt_i64(n1, r1, "hdd_amount"@) == col_opt_i64(n2, r2, "hdd_amount"@)) by { assert(field(n1, r1, "hdd_amount"@) == field(n2, r2, "hdd_amount"@)); }
    assert(col_opt_str(n1, r1, "total_hdd_capacity"@) == col_opt_str(n2, r2, "total_hdd_capacity"@)) by { assert(field(n1, r1, "total_hdd_capacity"@) == field(n2, r2, "total_hdd_capacity"@)); }
    assert(col_opt_i64(n1, r1, "ssd_amount"@) == col_opt_i64(n2, r2, "ssd_amount"@)) by { assert(field(n1, r1, "ssd_amount"@) == field(n2, r2, "ssd_amount"@)); }
    assert(col_opt_str(n1, r1, "total_ssd_capacity"@) == col_opt_str(n2, r2, "total_ssd_capacity"@)) by { assert(field(n1, r1, "total_ssd_capacity"@) == field(n2, r2, "total_ssd_capacity"@)); }
    assert(col_bool(n1, r1, "unmetered_bandwidth"@) == col_bool(n2, r2, "unmetered_bandwidth"@)) by { assert(field(n1, r1, "unmetered_bandwidth"@) == field(n2, r2, "unmetered_bandwidth"@)); }
    assert(col_opt_str(n1, r1, "uplink_speed"@) == col_opt_str(n2, r2, "uplink_speed"@)) by { assert(field(n1, r1, "uplink_speed"@) == field(n2, r2, "uplink_speed"@)); }
    assert(col_opt_i64(n1, r1, "traffic"@) == col_opt_i64(n2, r2, "traffic"@)) by { assert(field(n1, r1, "traffic"@) == field(n2, r2, "traffic"@)); }
    assert(col_str(n1, r1, "datacenter_country"@) == col_str(n2, r2, "datacenter_country"@)) by { assert(field(n1, r1, "datacenter_country"@) == field(n2, r2, "datacenter_country"@)); }
    assert(col_str(n1, r1, "datacenter_city"@) == col_str(n2, r2, "datacenter_city"@)) by { assert(field(n1, r1, "datacenter_city"@) == field(n2, r2, "datacenter_city"@)); }
    assert(col_opt_number(n1, r1, "datacenter_latitude"@) == col_opt_number(n2, r2, "datacenter_latitude"@)) by { assert(field(n1, r1, "datacenter_latitude"@) == field(n2, r2, "datacenter_latitude"@)); }
    assert(col_opt_number(n1, r1, "datacenter_longitude"@) == col_opt_number(n2, r2, "datacenter_longitude"@)) by { assert(field(n1, r1, "datacenter_longitude"@) == field(n2, r2, "datacenter_longitude"@)); }
    assert(col_opt_str(n1, r1, "control_panel"@) == col_opt_str(n2, r2, "control_panel"@)) by { assert(field(n1, r1, "control_panel"@) == field(n2, r2, "control_panel"@)); }
    assert(col_opt_str(n1, r1, "gpu_name"@) == col_opt_str(n2, r2, "gpu_name"@)) by { assert(field(n1, r1, "gpu_name"@) == field(n2, r2, "gpu_name"@)); }
    assert(col_opt_i64(n1, r1, "gpu_count"@) == col_opt_i64(n2, r2, "gpu_count"@)) by { assert(field(n1, r1, "gpu_count"@) == field(n2, r2, "gpu_count"@)); }
    assert(col_opt_i64(n1, r1, "gpu_memory_gb"@) == col_opt_i64(n2, r2, "gpu_memory_gb"@)) by { assert(field(n1, r1, "gpu_memory_gb"@) == field(n2, r2, "gpu_memory_gb"@)); }
    assert(col_opt_i64(n1, r1, "min_contract_hours"@) == col_opt_i64(n2, r2, "min_contract_hours"@)) by { assert(field(n1, r1, "min_contract_hours"@) == field(n2, r2, "min_contract_hours"@)); }
    assert(col_opt_i64(n1, r1, "max_contract_hours"@) == col_opt_i64(n2, r2, "max_contract_hours"@)) by { assert(field(n1, r1, "max_contract_hours"@) == field(n2, r2, "max_contract_hours"@)); }
    assert(col_opt_list(n1, r1, "payment_methods"@) == col_opt_list(n2, r2, "payment_methods"@)) by { assert(field(n1, r1, "payment_methods"@) == field(n2, r2, "payment_methods"@)); }
    assert(col_opt_list(n1, r1, "features"@) == col_opt_list(n2, r2, "features"@)) by { assert(field(n1, r1, "features"@) == field(n2, r2, "features"@)); }
    assert(col_opt_list(n1, r1, "operating_systems"@) == col_opt_list(n2, r2, "operating_systems"@)) by { assert(field(n1, r1, "operating_systems"@) == field(n2, r2, "operating_systems"@)); }
    assert(col_bool(n1, r1, "is_draft"@) == col_bool(n2, r2, "is_draft"@)) by { assert(field(n1, r1, "is_draft"@) == field(n2, r2, "is_draft"@)); }
    assert(col_opt_str(n1, r1, "offering_source"@) == col_opt_str(n2, r2, "offering_source"@)) by { assert(field(n1, r1, "offering_source"@) == field(n2, r2, "offering_source"@)); }
    assert(col_opt_str(n1, r1, "external_checkout_url"@) == col_opt_str(n2, r2, "external_checkout_url"@)) by { assert(field(n1, r1, "external_checkout_url"@) == field(n2, r2, "external_checkout_url"@)); }
    assert(col_opt_str(n1, r1, "provisioner_type"@) == col_opt_str(n2, r2, "provisioner_type"@)) by { assert(field(n1, r1, "provisioner_type"@) == field(n2, r2, "provisioner_type"@)); }
    assert(col_opt_str(n1, r1, "provisioner_config"@) == col_opt_str(n2, r2, "provisioner_config"@)) by { assert(field(n1, r1, "provisioner_config"@) == field(n2, r2, "provisioner_config"@)); }
    assert(col_opt_str(n1, r1, "template_name"@) == col_opt_str(n2, r2, "template_name"@)) by { assert(field(n1, r1, "template_name"@) == field(n2, r2, "template_name"@)); }
    assert(col_opt_str(n1, r1, "agent_pool_id"@) == col_opt_str(n2, r2, "agent_pool_id"@)) by { assert(field(n1, r1, "agent_pool_id"@) == field(n2, r2, "agent_pool_id"@)); }
    assert(col_opt_str(n1, r1, "post_provision_script"@) == col_opt_str(n2, r2, "post_provision_script"@)) by { assert(field(n1, r1, "post_provision_script"@) == field(n2, r2, "post_provision_script"@)); }
    assert(col_str(n1, r1, "offering_id"@) == col_str(n2, r2, "offering_id"@)) by { assert(field(n1, r1, "offering_id"@) == field(n2, r2, "offering_id"@)); }
    assert(col_str(n1, r1, "offer_name"@) == col_str(n2, r2, "offer_name"@)) by { assert(field(n1, r1, "offer_name"@) == field(n2, r2, "offer_name"@)); }
    assert(col_number(n1, r1, "monthly_price"@) == col_number(n2, r2, "monthly_price"@)) by { assert(field(n1, r1, "monthly_price"@) == field(n2, r2, "monthly_price"@)); }
    assert(col_number(n1, r1, "setup_fee"@) == col_number(n2, r2, "setup_fee"@)) by { assert(field(n1, r1, "setup_fee"@) == field(n2, r2, "setup_fee"@)); }
}

/// The order of the columns does not matter: two header rows and records
/// that hold the same (header, cell) pairs, put in another order by the
/// permutation `p` (with inverse `q`), give the same field under every
/// name, and so the same parsed row, provided no two headers trim to the
/// same name.
pub proof fn lemma_column_order_irrelevant(
    h1: Seq<Seq<char>>,
    r1: Seq<Seq<char>>,
    h2: Seq<Seq<char>>,
    r2: Seq<Seq<char>>,
    p: Seq<int>,
    q: Seq<int>,
)
    requires
        r1.len() == h1.len(),
        h2.len() == h1.len(),
        r2.len() == h1.len(),
        p.len() == h1.len(),
        q.len() == h1.len(),
        forall|i: int| 0 <= i < h1.len() ==> 0 <= #[trigger] p[i] < h1.len() && h2[i] == h1[p[i]] && r2[i] == r1[p[i]] && q[p[i]] == i,
        forall|i: int| 0 <= i < h1.len() ==> 0 <= #[trigger] q[i] < h1.len() && p[q[i]] == i,
        distinct_names(column_names(h1)),
    ensures
        forall|name: Seq<char>| #[trigger] field(column_names(h1), r1, name) == field(column_names(h2), r2, name),
        record_result(column_names(h1), r1) == record_result(column_names(h2), r2),
{
    let n1 = column_names(h1);
    let n2 = column_names(h2);
    assert forall|i: int| 0 <= i < h1.len() implies #[trigger] n2[i] == n1[p[i]] by {
        assert(h2[i] == h1[p[i]]);
    }
    assert forall|a: int, b: int| 0 <= a < b < n2.len() implies #[trigger] n2[a] != #[trigger] n2[b] by {
        assert(n2[a] == n1[p[a]] && n2[b] == n1[p[b]]);
        assert(q[p[a]] == a && q[p[b]] == b);
        if p[a] < p[b] {
            assert(n1[p[a]] != n1[p[b]]);
        } else if p[b] < p[a] {
            assert(n1[p[b]] != n1[p[a]]);
        }
    }
    assert forall|name: Seq<char>| #[trigger] field(n1, r1, name) == field(n2, r2, name) by {
        if exists|i: int| 0 <= i < n1.len() && n1[i] == name {
            let i = choose|i: int| 0 <= i < n1.len() && n1[i] == name;
            let j = q[i];
            assert(n2[j] == n1[p[j]]);
            lemma_column_index_unique(n1, name, i);
            lemma_column_index_unique(n2, name, j);
            assert(r2[j] == r1[p[j]]);
        } else {
            lemma_column_index_absent(n1, name);
            assert forall|j: int| 0 <= j < n2.len() implies #[trigger] n2[j] != name by {
                assert(n2[j] == n1[p[j]]);
            }
            lemma_column_index_absent(n2, name);
        }
    }
    lemma_same_fields_same_row(n1, r1, n2, r2);
}

/// A row after the import's source override: when a source is given it is
/// recorded as the offering's source, and a seeded offering without a
/// checkout link takes its product page as one.
pub open spec fn with_source(o: CsvOfferingView, source: Option<Seq<char>>) -> CsvOfferingView {
    match source {
        None => o,
        Some(src) => CsvOfferingView {
            offering_source: Some(src),
            external_checkout_url: if src == "seeded"@ && o.external_checkout_url is None {
                o.product_page_url
            } else {
                o.external_checkout_url
            },
            ..o
        },
    }
}

/// Applies an import's source override to a parsed row.
pub fn apply_source_override(o: CsvOffering, source: Option<&str>) -> (r: CsvOffering)
    ensures
        r@ == with_source(o@, match source { Some(s) => Some(s@), None => None }),
{
    match source {
        None => o,
        Some(src) => {
            let mut o = o;
            o.offering_source = Some(owned(src));
            if str_eq(src, "seeded") && o.external_checkout_url.is_none() {
                o.external_checkout_url = clone_opt(&o.product_page_url);
            }
            o
        },
    }
}

/// The result for one parsed row: its errors, or the offering with the
/// source override applied.
pub open spec fn row_result(names: Seq<Seq<char>>, fields: Seq<Seq<char>>, source: Option<Seq<char>>) -> Result<CsvOfferingView, Seq<char>> {
    match record_result(names, fields) {
        Err(e) => Err(e),
        Ok(o) => Ok(with_source(o, source)),
    }
}

/// The result for one record of the document.
pub open spec fn prepared_row(
    names: Seq<Seq<char>>,
    record: Result<Seq<Seq<char>>, Seq<char>>,
    source: Option<Seq<char>>,
) -> Result<CsvOfferingView, Seq<char>> {
    match record {
        Err(e) => Err("CSV parse error: "@ + e),
        Ok(fields) => row_result(names, fields, source),
    }
}

/// The view of one prepared row.
pub open spec fn prepared_view(r: Result<CsvOffering, String>) -> Result<CsvOfferingView, Seq<char>> {
    match r {
        Ok(o) => Ok(o@),
        Err(e) => Err(e@),
    }
}

fn prepare_row(columns: &CsvColumns, record: &Result<Vec<String>, String>, source: Option<&str>) -> (r: Result<CsvOffering, String>)
    ensures
        prepared_view(r) == prepared_row(columns@, record_view(*record), match source { Some(s) => Some(s@), None => None }),
{
    match record {
        Err(e) => {
            let mut m = owned("CSV parse error: ");
            m.append(e.as_str());
            Err(m)
        },
        Ok(fields) => {
            let parsed = parse_csv_record(columns, fields.as_slice());
            match parsed {
                Err(m) => Err(m),
                Ok(o) => Ok(apply_source_override(o, source)),
            }
        },
    }
}

/// Reads an offerings CSV document and turns each record into offering
/// fields or the error reported for its row, applying the optional source
/// override. Row `k` of the result is the document's row `k + 2` (the
/// header is row 1). An error reading the header row fails the whole
/// import with the reader's message.
pub fn prepare_csv_import(csv_data: &str, source: Option<&str>) -> (r: Result<Vec<Result<CsvOffering, String>>, String>)
    ensures
        match csv_document(csv_data@) {
            Err(e) => r matches Err(x) && x@ == e,
            Ok((headers, records)) => r matches Ok(rows) && rows@.len() == records.len() && forall|k: int|
                0 <= k < records.len() ==> prepared_view(#[trigger] rows@[k]) == prepared_row(
                    headers.map_values(|h: Seq<char>| trimmed(h)),
                    records[k],
                    match source { Some(s) => Some(s@), None => None },
                ),
        },
{
    let doc = read_csv(csv_data);
    let (headers, records) = match doc {
        Err(e) => return Err(e),
        Ok(d) => d,
    };
    let columns = CsvColumns::from_headers(headers.as_slice());
    let ghost src = match source { Some(s) => Some(s@), None => None };
    let ghost recs = records@.map_values(|x: Result<Vec<String>, String>| record_view(x));
    let mut rows: Vec<Result<CsvOffering, String>> = Vec::new();
    let mut i: usize = 0;
    while i < records.len()
        invariant
            i <= records@.len(),
            rows@.len() == i,
            recs == records@.map_values(|x: Result<Vec<String>, String>| record_view(x)),
            src == match source { Some(s) => Some(s@), None => None },
            columns@ == views(headers@).map_values(|h: Seq<char>| trimmed(h)),
            forall|k: int| 0 <= k < i ==> prepared_view(#[trigger] rows@[k]) == prepared_row(columns@, recs[k], src),
        decreases records@.len() - i,
    {
        let row = prepare_row(&columns, &records[i], source);
        assert(recs[i as int] == record_view(records@[i as int]));
        assert(prepared_view(row) == prepared_row(columns@, recs[i as int], src));
        let ghost before = rows@;
        rows.push(row);
        assert(forall|k: int| 0 <= k < i ==> rows@[k] == before[k]);
        i = i + 1;
    }
    Ok(rows)
}

/// The document row number of the record at index `index` (the header is
/// row 1).
pub fn csv_row_number(index: usize) -> (r: usize)
    requires
        index + 2 <= usize::MAX,
    ensures
        r == index + 2,
{
    index + 2
}

/// Whether a row names an agent pool that must be looked up.
pub fn row_needs_pool_check(agent_pool_id: &Option<String>) -> (r: bool)
    ensures
        r == (agent_pool_id matches Some(p) && p@.len() > 0),
{
    match agent_pool_id {
        Some(p) => !p.as_str().is_empty(),
        None => false,
    }
}

/// The verdict on a row's agent pool given the lookup's outcome: the
/// lookup's error, a missing pool, or a pool whose owner (hex-encoded) is
/// not the importing provider each reject the row.
pub open spec fn pool_check(pool_id: Seq<char>, lookup: Result<Option<Seq<char>>, Seq<char>>, provider: Seq<u8>) -> Result<(), Seq<char>> {
    match lookup {
        Err(e) => Err("Failed to validate agent_pool_id: "@ + e),
        Ok(None) => Err("Pool '"@ + pool_id + "' does not exist"@),
        Ok(Some(owner)) => if owner != hex_lower(provider) {
            Err("Pool '"@ + pool_id + "' belongs to different provider"@)
        } else {
            Ok(())
        },
    }
}

/// Checks the agent pool a CSV row names against the pool lookup.
pub fn check_row_agent_pool(
    pool_id: &str,
    lookup: Result<Option<String>, String>,
    provider_pubkey: &[u8],
) -> (r: Result<(), String>)
    ensures
        match r {
            Ok(()) => pool_check(pool_id@, match lookup { Ok(o) => Ok(opt_view(o)), Err(e) => Err(e@) }, provider_pubkey@) is Ok,
            Err(m) => pool_check(pool_id@, match lookup { Ok(o) => Ok(opt_view(o)), Err(e) => Err(e@) }, provider_pubkey@) == Err::<(), Seq<char>>(m@),
        },
{
    match lookup {
        Err(e) => {
            let mut m = owned("Failed to validate agent_pool_id: ");
            m.append(e.as_str());
            Err(m)
        },
        Ok(None) => {
            let mut m = owned("Pool '");
            m.append(pool_id);
            m.append("' does not exist");
            Err(m)
        },
        Ok(Some(owner)) => {
            let provider_hex = hex_encode(provider_pubkey);
            if !str_eq(owner.as_str(), provider_hex.as_str()) {
                let mut m = owned("Pool '");
                m.append(pool_id);
                m.append("' belongs to different provider");
                Err(m)
            } else {
                Ok(())
            }
        },
    }
}

/// The plain text columns of an imported row are copied as written, and
/// are empty when the column is missing.
pub proof fn lemma_text_columns(names: Seq<Seq<char>>, record: Seq<Seq<char>>, v: Seq<char>)
    ensures
        record_result(names, record) matches Ok(o) ==> {
            &&& field(names, record, "offering_id"@) == Some(v) ==> o.offering_id == v
            &&& field(names, record, "offering_id"@) is None ==> o.offering_id == Seq::<char>::empty()
            &&& field(names, record, "offer_name"@) == Some(v) ==> o.offer_name == v
            &&& field(names, record, "offer_name"@) is None ==> o.offer_name == Seq::<char>::empty()
            &&& field(names, record, "currency"@) == Some(v) ==> o.currency == v
            &&& field(names, record, "currency"@) is None ==> o.currency == Seq::<char>::empty()
            &&& field(names, record, "visibility"@) == Some(v) ==> o.visibility == v
            &&& field(names, record, "visibility"@) is None ==> o.visibility == Seq::<char>::empty()
            &&& field(names, record, "product_type"@) == Some(v) ==> o.product_type == v
            &&& field(names, record, "product_type"@) is None ==> o.product_type == Seq::<char>::empty()
            &&& field(names, record, "billing_interval"@) == Some(v) ==> o.billing_interval == v
            &&& field(names, record, "billing_interval"@) is None ==> o.billing_interval == Seq::<char>::empty()
            &&& field(names, record, "stock_status"@) == Some(v) ==> o.stock_status == v
            &&& field(names, record, "stock_status"@) is None ==> o.stock_status == Seq::<char>::empty()
            &&& field(names, record, "datacenter_country"@) == Some(v) ==> o.datacenter_country == v
            &&& field(names, record, "datacenter_country"@) is None ==> o.datacenter_country == Seq::<char>::empty()
            &&& field(names, record, "datacenter_city"@) == Some(v) ==> o.datacenter_city == v
            &&& field(names, record, "datacenter_city"@) is None ==> o.datacenter_city == Seq::<char>::empty()
        },
{
}

/// The optional text columns of an imported row hold the cell without
/// surrounding whitespace, and nothing when the cell is blank or the column
/// is missing.
pub proof fn lemma_optional_text_columns(names: Seq<Seq<char>>, record: Seq<Seq<char>>, v: Seq<char>)
    ensures
        record_result(names, record) matches Ok(o) ==> {
            &&& field(names, record, "description"@) == Some(v) && trimmed(v).len() > 0 ==> o.description == Some(trimmed(v))
            &&& field(names, record, "description"@) == Some(v) && trimmed(v).len() == 0 ==> o.description is None
            &&& field(names, record, "description"@) is None ==> o.description is None
            &&& field(names, record, "product_page_url"@) == Some(v) && trimmed(v).len() > 0 ==> o.product_page_url == Some(trimmed(v))
            &&& field(names, record, "product_page_url"@) == Some(v) && trimmed(v).len() == 0 ==> o.product_page_url is None
            &&& field(names, record, "product_page_url"@) is None ==> o.product_page_url is None
            &&& field(names, record, "virtualization_type"@) == Some(v) && trimmed(v).len() > 0 ==> o.virtualization_type == Some(trimmed(v))
            &&& field(names, record, "virtualization_type"@) == Some(v) && trimmed(v).len() == 0 ==> o.virtualization_type is None
            &&& field(names, record, "virtualization_type"@) is None ==> o.virtualization_type is None
            &&& field(names, record, "pricing_model"@) == Some(v) && trimmed(v).len() > 0 ==> o.pricing_model == Some(trimmed(v))
            &&& field(names, record, "pricing_model"@) == Some(v) && trimmed(v).len() == 0 ==> o.pricing_model is None
            &&& field(names, record, "pricing_model"@) is None ==> o.pricing_model is None
            &&& field(names, record, "stripe_metered_price_id"@) == Some(v) && trimmed(v).len() > 0 ==> o.stripe_metered_price_id == Some(trimmed(v))
            &&& field(names, record, "stripe_metered_price_id"@) == Some(v) && trimmed(v).len() == 0 ==> o.stripe_metered_price_id is None
            &&& field(names, record, "stripe_metered_price_id"@) is None ==> o.stripe_metered_price_id is None
            &&& field(names, record, "processor_brand"@) == Some(v) && trimmed(v).len() > 0 ==> o.processor_brand == Some(trimmed(v))
            &&& field(names, record, "processor_brand"@) == Some(v) && trimmed(v).len() == 0 ==> o.processor_brand is None
            &&& field(names, record, "processor_brand"@) is None ==> o.processor_brand is None
            &&& field(names, record, "processor_speed"@) == Some(v) && trimmed(v).len() > 0 ==> o.processor_speed == Some(trimmed(v))
            &&& field(names, record, "processor_speed"@) == Some(v) && trimmed(v).len() == 0 ==> o.processor_speed is None
            &&& field(names, record, "processor_speed"@) is None ==> o.processor_speed is None
            &&& field(names, record, "processor_name"@) == Some(v) && trimmed(v).len() > 0 ==> o.processor_name == Some(trimmed(v))
            &&& field(names, record, "processor_name"@) == Some(v) && trimmed(v).len() == 0 ==> o.processor_name is None
            &&& field(names, record, "processor_name"@) is None ==> o.processor_name is None
            &&& field(names, record, "memory_error_correction"@) == Some(v) && trimmed(v).len() > 0 ==> o.memory_error_correction == Some(trimmed(v))
            &&& field(names, record, "memory_error_correction"@) == Some(v) && trimmed(v).len() == 0 ==> o.memory_error_correction is None
            &&& field(names, record, "memory_error_correction"@) is None ==> o.memory_error_correction is None
            &&& field(names, record, "memory_type"@) == Some(v) && trimmed(v).len() > 0 ==> o.memory_type == Some(trimmed(v))
            &&& field(names, record, "memory_type"@) == Some(v) && trimmed(v).len() == 0 ==> o.memory_type is None
            &&& field(names, record, "memory_type"@) is None ==> o.memory_type is None
            &&& field(names, record, "memory_amount"@) == Some(v) && trimmed(v).len() > 0 ==> o.memory_amount == Some(trimmed(v))
            &&& field(names, record, "memory_amount"@) == Some(v) && trimmed(v).len() == 0 ==> o.memory_amount is None
            &&& field(names, record, "memory_amount"@) is None ==> o.memory_amount is None
            &&& field(names, record, "total_hdd_capacity"@) == Some(v) && trimmed(v).len() > 0 ==> o.total_hdd_capacity == Some(trimmed(v))
            &&& field(names, record, "total_hdd_capacity"@) == Some(v) && trimmed(v).len() == 0 ==> o.total_hdd_capacity is None
            &&& field(names, record, "total_hdd_capacity"@) is None ==> o.total_hdd_capacity is None
            &&& field(names, record, "total_ssd_capacity"@) == Some(v) && trimmed(v).len() > 0 ==> o.total_ssd_capacity == Some(trimmed(v))
            &&& field(names, record, "total_ssd_capacity"@) == Some(v) && trimmed(v).len() == 0 ==> o.total_ssd_capacity is None
            &&& field(names, record, "total_ssd_capacity"@) is None ==> o.total_ssd_capacity is None
            &&& field(names, record, "uplink_speed"@) == Some(v) && trimmed(v).len() > 0 ==> o.uplink_speed == Some(trimmed(v))
            &&& field(names, record, "uplink_speed"@) == Some(v) && trimmed(v).len() == 0 ==> o.uplink_speed is None
            &&& field(names, record, "uplink_speed"@) is None ==> o.uplink_speed is None
            &&& field(names, record, "control_panel"@) == Some(v) && trimmed(v).len() > 0 ==> o.control_panel == Some(trimmed(v))
            &&& field(names, record, "control_panel"@) == Some(v) && trimmed(v).len() == 0 ==> o.control_panel is None
            &&& field(names, record, "control_panel"@) is None ==> o.control_panel is None
            &&& field(names, record, "gpu_name"@) == Some(v) && trimmed(v).len() > 0 ==> o.gpu_name == Some(trimmed(v))
            &&& field(names, record, "gpu_name"@) == Some(v) && trimmed(v).len() == 0 ==> o.gpu_name is None
            &&& field(names, record, "gpu_name"@) is None ==> o.gpu_name is None
            &&& field(names, record, "offering_source"@) == Some(v) && trimmed(v).len() > 0 ==> o.offering_source == Some(trimmed(v))
            &&& field(names, record, "offering_source"@) == Some(v) && trimmed(v).len() == 0 ==> o.offering_source is None
            &&& field(names, record, "offering_source"@) is None ==> o.offering_source is None
            &&& field(names, record, "external_checkout_url"@) == Some(v) && trimmed(v).len() > 0 ==> o.external_checkout_url == Some(trimmed(v))
            &&& field(names, record, "external_checkout_url"@) == Some(v) && trimmed(v).len() == 0 ==> o.external_checkout_url is None
            &&& field(names, record, "external_checkout_url"@) is None ==> o.external_checkout_url is None
            &&& field(names, record, "provisioner_type"@) == Some(v) && trimmed(v).len() > 0 ==> o.provisioner_type == Some(trimmed(v))
            &&& field(names, record, "provisioner_type"@) == Some(v) && trimmed(v).len() == 0 ==> o.provisioner_type is None
            &&& field(names, record, "provisioner_type"@) is None ==> o.provisioner_type is None
            &&& field(names, record, "provisioner_config"@) == Some(v) && trimmed(v).len() > 0 ==> o.provisioner_config == Some(trimmed(v))
            &&& field(names, record, "provisioner_config"@) == Some(v) && trimmed(v).len() == 0 ==> o.provisioner_config is None
            &&& field(names, record, "provisioner_config"@) is None ==> o.provisioner_config is None
            &&& field(names, record, "template_name"@) == Some(v) && trimmed(v).len() > 0 ==> o.template_name == Some(trimmed(v))
            &&& field(names, record, "template_name"@) == Some(v) && trimmed(v).len() == 0 ==> o.template_name is None
            &&& field(names, record, "template_name"@) is None ==> o.template_name is None
            &&& field(names, record, "agent_pool_id"@) == Some(v) && trimmed(v).len() > 0 ==> o.agent_pool_id == Some(trimmed(v))
            &&& field(names, record, "agent_pool_id"@) == Some(v) && trimmed(v).len() == 0 ==> o.agent_pool_id is None
            &&& field(names, record, "agent_pool_id"@) is None ==> o.agent_pool_id is None
            &&& field(names, record, "post_provision_script"@) == Some(v) && trimmed(v).len() > 0 ==> o.post_provision_script == Some(trimmed(v))
            &&& field(names, record, "post_provision_script"@) == Some(v) && trimmed(v).len() == 0 ==> o.post_provision_script is None
            &&& field(names, record, "post_provision_script"@) is None ==> o.post_provision_script is None
        },
{
}

/// The whole-number columns of an imported row hold the trimmed cell read
/// as an `i64`, and nothing when the cell is blank, is not such a number, or
/// the column is missing.
pub proof fn lemma_integer_columns(names: Seq<Seq<char>>, record: Seq<Seq<char>>, v: Seq<char>)
    ensures
        record_result(names, record) matches Ok(o) ==> {
            &&& field(names, record, "included_units"@) == Some(v) && trimmed(v).len() > 0 ==> o.included_units == parse_i64_spec(trimmed(v))
            &&& field(names, record, "included_units"@) == Some(v) && trimmed(v).len() == 0 ==> o.included_units is None
            &&& field(names, record, "included_units"@) is None ==> o.included_units is None
            &&& field(names, record, "subscription_interval_days"@) == Some(v) && trimmed(v).len() > 0 ==> o.subscription_interval_days == parse_i64_spec(trimmed(v))
            &&& field(names, record, "subscription_interval_days"@) == Some(v) && trimmed(v).len() == 0 ==> o.subscription_interval_days is None
            &&& field(names, record, "subscription_interval_days"@) is None ==> o.subscription_interval_days is None
            &&& field(names, record, "processor_amount"@) == Some(v) && trimmed(v).len() > 0 ==> o.processor_amount == parse_i64_spec(trimmed(v))
            &&& field(names, record, "processor_amount"@) == Some(v) && trimmed(v).len() == 0 ==> o.processor_amount is None
            &&& field(names, record, "processor_amount"@) is None ==> o.processor_amount is None
            &&& field(names, record, "processor_cores"@) == Some(v) && trimmed(v).len() > 0 ==> o.processor_cores == parse_i64_spec(trimmed(v))
            &&& field(names, record, "processor_cores"@) == Some(v) && trimmed(v).len() == 0 ==> o.processor_cores is None
            &&& field(names, record, "processor_cores"@) is None ==> o.processor_cores is None
            &&& field(names, record, "hdd_amount"@) == Some(v) && trimmed(v).len() > 0 ==> o.hdd_amount == parse_i64_spec(trimmed(v))
            &&& field(names, record, "hdd_amount"@) == Some(v) && trimmed(v).len() == 0 ==> o.hdd_amount is None
            &&& field(names, record, "hdd_amount"@) is None ==> o.hdd_amount is None
            &&& field(names, record, "ssd_amount"@) == Some(v) && trimmed(v).len() > 0 ==> o.ssd_amount == parse_i64_spec(trimmed(v))
            &&& field(names, record, "ssd_amount"@) == Some(v) && trimmed(v).len() == 0 ==> o.ssd_amount is None
            &&& field(names, record, "ssd_amount"@) is None ==> o.ssd_amount is None
            &&& field(names, record, "traffic"@) == Some(v) && trimmed(v).len() > 0 ==> o.traffic == parse_i64_spec(trimmed(v))
            &&& field(names, record, "traffic"@) == Some(v) && trimmed(v).len() == 0 ==> o.traffic is None
            &&& field(names, record, "traffic"@) is None ==> o.traffic is None
            &&& field(names, record, "gpu_count"@) == Some(v) && trimmed(v).len() > 0 ==> o.gpu_count == parse_i64_spec(trimmed(v))
            &&& field(names, record, "gpu_count"@) == Some(v) && trimmed(v).len() == 0 ==> o.gpu_count is None
            &&& field(names, record, "gpu_count"@) is None ==> o.gpu_count is None
            &&& field(names, record, "gpu_memory_gb"@) == Some(v) && trimmed(v).len() > 0 ==> o.gpu_memory_gb == parse_i64_spec(trimmed(v))
            &&& field(names, record, "gpu_memory_gb"@) == Some(v) && trimmed(v).len() == 0 ==> o.gpu_memory_gb is None
            &&& field(names, record, "gpu_memory_gb"@) is None ==> o.gpu_memory_gb is None
            &&& field(names, record, "min_contract_hours"@) == Some(v) && trimmed(v).len() > 0 ==> o.min_contract_hours == parse_i64_spec(trimmed(v))
            &&& field(names, record, "min_contract_hours"@) == Some(v) && trimmed(v).len() == 0 ==> o.min_contract_hours is None
            &&& field(names, record, "min_contract_hours"@) is None ==> o.min_contract_hours is None
            &&& field(names, record, "max_contract_hours"@) == Some(v) && trimmed(v).len() > 0 ==> o.max_contract_hours == parse_i64_spec(trimmed(v))
            &&& field(names, record, "max_contract_hours"@) == Some(v) && trimmed(v).len() == 0 ==> o.max_contract_hours is None
            &&& field(names, record, "max_contract_hours"@) is None ==> o.max_contract_hours is None
        },
{
}

/// The number columns of an imported row: the two prices are present and
/// read as numbers, and hold their trimmed cells; an optional number column
/// holds its trimmed cell when that reads as a number, else nothing.
pub proof fn lemma_number_columns(names: Seq<Seq<char>>, record: Seq<Seq<char>>, v: Seq<char>)
    ensures
        record_result(names, record) matches Ok(o) ==> {
            &&& field(names, record, "price_per_unit"@) == Some(v) && float_literal(trimmed(v)) ==> o.price_per_unit_text == Some(trimmed(v))
            &&& field(names, record, "price_per_unit"@) == Some(v) && !float_literal(trimmed(v)) ==> o.price_per_unit_text is None
            &&& field(names, record, "price_per_unit"@) is None ==> o.price_per_unit_text is None
            &&& field(names, record, "overage_price_per_unit"@) == Some(v) && float_literal(trimmed(v)) ==> o.overage_price_per_unit_text == Some(trimmed(v))
            &&& field(names, record, "overage_price_per_unit"@) == Some(v) && !float_literal(trimmed(v)) ==> o.overage_price_per_unit_text is None
            &&& field(names, record, "overage_price_per_unit"@) is None ==> o.overage_price_per_unit_text is None
            &&& field(names, record, "datacenter_latitude"@) == Some(v) && float_literal(trimmed(v)) ==> o.datacenter_latitude_text == Some(trimmed(v))
            &&& field(names, record, "datacenter_latitude"@) == Some(v) && !float_literal(trimmed(v)) ==> o.datacenter_latitude_text is None
            &&& field(names, record, "datacenter_latitude"@) is None ==> o.datacenter_latitude_text is None
            &&& field(names, record, "datacenter_longitude"@) == Some(v) && float_literal(trimmed(v)) ==> o.datacenter_longitude_text == Some(trimmed(v))
            &&& field(names, record, "datacenter_longitude"@) == Some(v) && !float_literal(trimmed(v)) ==> o.datacenter_longitude_text is None
            &&& field(names, record, "datacenter_longitude"@) is None ==> o.datacenter_longitude_text is None
            &&& field(names, record, "monthly_price"@) == Some(v) ==> float_literal(trimmed(v)) && o.monthly_price_text == trimmed(v)
            &&& field(names, record, "setup_fee"@) == Some(v) ==> float_literal(trimmed(v)) && o.setup_fee_text == trimmed(v)
            &&& field(names, record, "monthly_price"@) is Some && field(names, record, "setup_fee"@) is Some
        },
{
}

/// The list columns of an imported row hold the cell's items, trimmed and
/// without blanks, joined by commas; nothing when no item is left or the
/// column is missing.
pub proof fn lemma_list_columns(names: Seq<Seq<char>>, record: Seq<Seq<char>>, v: Seq<char>)
    ensures
        record_result(names, record) matches Ok(o) ==> {
            &&& field(names, record, "payment_methods"@) is None ==> o.payment_methods is None
            &&& field(names, record, "payment_methods"@) == Some(v) && list_items(v).len() == 0 ==> o.payment_methods is None
            &&& field(names, record, "payment_methods"@) == Some(v) && list_items(v).len() > 0 ==> o.payment_methods == Some(join(list_items(v), ","@))
            &&& field(names, record, "features"@) is None ==> o.features is None
            &&& field(names, record, "features"@) == Some(v) && list_items(v).len() == 0 ==> o.features is None
            &&& field(names, record, "features"@) == Some(v) && list_items(v).len() > 0 ==> o.features == Some(join(list_items(v), ","@))
            &&& field(names, record, "operating_systems"@) is None ==> o.operating_systems is None
            &&& field(names, record, "operating_systems"@) == Some(v) && list_items(v).len() == 0 ==> o.operating_systems is None
            &&& field(names, record, "operating_systems"@) == Some(v) && list_items(v).len() > 0 ==> o.operating_systems == Some(join(list_items(v), ","@))
        },
{
}

/// A row naming an agent pool is accepted exactly when the lookup finds the
/// pool and its owner is the importing provider (its key in lower-case
/// hex); a failed lookup, a missing pool or another owner each reject the
/// row with their own message. A record the reader could not parse is
/// reported with the reader's message after "CSV parse error: ".
pub proof fn lemma_pool_and_parse_errors(
    pool_id: Seq<char>,
    lookup: Result<Option<Seq<char>>, Seq<char>>,
    provider: Seq<u8>,
    names: Seq<Seq<char>>,
    err: Seq<char>,
    source: Option<Seq<char>>,
)
    ensures
        pool_check(pool_id, lookup, provider) is Ok <==> lookup == Ok::<Option<Seq<char>>, Seq<char>>(Some(hex_lower(provider))),
        lookup matches Err(e) ==> pool_check(pool_id, lookup, provider) == Err::<(), Seq<char>>("Failed to validate agent_pool_id: "@ + e),
        lookup == Ok::<Option<Seq<char>>, Seq<char>>(None) ==> pool_check(pool_id, lookup, provider) == Err::<(), Seq<char>>(
            "Pool '"@ + pool_id + "' does not exist"@),
        lookup matches Ok(Some(o)) && o != hex_lower(provider) ==> pool_check(pool_id, lookup, provider) == Err::<(), Seq<char>>(
            "Pool '"@ + pool_id + "' belongs to different provider"@),
        prepared_row(names, Err(err), source) == Err::<CsvOfferingView, Seq<char>>("CSV parse error: "@ + err),
{
}

/// No piece of a text split at commas holds a comma, and a text without
/// commas is one piece.
proof fn lemma_split_pieces(s: Seq<char>)
    ensures
        forall|i: int, j: int| 0 <= i < split_commas(s).len() && 0 <= j < split_commas(s)[i].len()
            ==> #[trigger] split_commas(s)[i][j] != ',',
        (forall|j: int| 0 <= j < s.len() ==> #[trigger] s[j] != ',') ==> split_commas(s) == seq![s],
    decreases s.len(),
{
    if s.len() > 0 {
        let p = split_commas(s.drop_last());
        lemma_split_pieces(s.drop_last());
        lemma_split_nonempty(s.drop_last());
        let q = split_commas(s);
        if s.last() == ',' {
            assert forall|i: int, j: int| 0 <= i < q.len() && 0 <= j < q[i].len() implies #[trigger] q[i][j] != ',' by {
                if i < p.len() {
                    assert(q[i] == p[i]);
                }
            }
        } else {
            assert forall|i: int, j: int| 0 <= i < q.len() && 0 <= j < q[i].len() implies #[trigger] q[i][j] != ',' by {
                if i < p.len() - 1 {
                    assert(q[i] == p[i]);
                } else {
                    assert(q[i] == p.last().push(s.last()));
                    if j < p.last().len() {
                        assert(q[i][j] == p[p.len() - 1][j]);
                    }
                }
            }
            if forall|j: int| 0 <= j < s.len() ==> #[trigger] s[j] != ',' {
                assert forall|j: int| 0 <= j < s.drop_last().len() implies #[trigger] s.drop_last()[j] != ',' by {
                    assert(s.drop_last()[j] == s[j]);
                }
                assert(p == seq![s.drop_last()]);
                assert(s.drop_last().push(s.last()) =~= s);
                assert(q =~= seq![s]);
            }
        }
    } else {
        assert(s =~= Seq::<char>::empty());
        assert(split_commas(s) =~= seq![s]);
    }
}

proof fn lemma_kept_pieces_shape(pieces: Seq<Seq<char>>)
    requires
        forall|i: int, j: int| 0 <= i < pieces.len() && 0 <= j < pieces[i].len() ==> #[trigger] pieces[i][j] != ',',
    ensures
        forall|i: int| 0 <= i < kept_pieces(pieces).len() ==> {
            let it = #[trigger] kept_pieces(pieces)[i];
            &&& it.len() > 0
            &&& trimmed(it) == it
            &&& forall|j: int| 0 <= j < it.len() ==> it[j] != ','
        },
    decreases pieces.len(),
{
    if pieces.len() > 0 {
        let rest = pieces.drop_last();
        assert forall|i: int, j: int| 0 <= i < rest.len() && 0 <= j < rest[i].len() implies #[trigger] rest[i][j] != ',' by {
            assert(rest[i] == pieces[i]);
        }
        lemma_kept_pieces_shape(rest);
        let last = pieces.last();
        let t = trimmed(last);
        lemma_trimmed_shape(last);
        if t.len() > 0 {
            let a = choose|a: int| 0 <= a && a + t.len() <= last.len() && #[trigger] last.subrange(a, a + t.len()) == t;
            assert forall|j: int| 0 <= j < t.len() implies t[j] != ',' by {
                assert(t[j] == last[a + j]);
                assert(pieces[pieces.len() - 1][a + j] != ',');
            }
            let kp = kept_pieces(pieces);
            assert forall|i: int| 0 <= i < kp.len() implies {
                let it = #[trigger] kp[i];
                &&& it.len() > 0
                &&& trimmed(it) == it
                &&& forall|j: int| 0 <= j < it.len() ==> it[j] != ','
            } by {
                if i < kp.len() - 1 {
                    assert(kp[i] == kept_pieces(rest)[i]);
                } else {
                    assert(kp[i] == t);
                }
            }
        }
    }
}

/// The items of a list cell are the comma-separated parts with their
/// surrounding whitespace removed: none is blank, none has whitespace at
/// either end, none holds a comma; and a cell without commas and with
/// something besides whitespace is one item, itself trimmed.
pub proof fn lemma_list_items_shape(s: Seq<char>)
    ensures
        forall|i: int| 0 <= i < list_items(s).len() ==> {
            let it = #[trigger] list_items(s)[i];
            &&& it.len() > 0
            &&& trimmed(it) == it
            &&& forall|j: int| 0 <= j < it.len() ==> it[j] != ','
        },
        (forall|j: int| 0 <= j < s.len() ==> #[trigger] s[j] != ',') && trimmed(s).len() > 0 ==> list_items(s) == seq![trimmed(s)],
{
    lemma_split_pieces(s);
    lemma_kept_pieces_shape(split_commas(s));
    if (forall|j: int| 0 <= j < s.len() ==> #[trigger] s[j] != ',') && trimmed(s).len() > 0 {
        let one = seq![s];
        assert(one.drop_last() =~= Seq::<Seq<char>>::empty());
        assert(one.last() == s);
        assert(kept_pieces(Seq::<Seq<char>>::empty()) == Seq::<Seq<char>>::empty());
        assert(kept_pieces(one) == kept_pieces(one.drop_last()).push(trimmed(s)));
        assert(kept_pieces(one) =~= seq![trimmed(s)]);
    }
}

/// Boolean columns of an imported row (`is_subscription`, `is_draft`,
/// `unmetered_bandwidth`): an ASCII cell that reads "true", "1" or "yes"
/// once trimmed and with its letters in lower case, such as " TRUE " or
/// "Yes", sets the flag; any other ASCII cell, and a missing column, leave
/// it unset.
pub proof fn lemma_bool_columns(names: Seq<Seq<char>>, record: Seq<Seq<char>>, v: Seq<char>)
    ensures
        record_result(names, record) matches Ok(o) ==> {
            &&& field(names, record, "is_subscription"@) is None ==> !o.is_subscription
            &&& field(names, record, "is_draft"@) is None ==> !o.is_draft
            &&& field(names, record, "unmetered_bandwidth"@) is None ==> !o.unmetered_bandwidth
            &&& field(names, record, "is_subscription"@) == Some(v) && ascii_text(trimmed(v)) ==> (o.is_subscription <==> (
                lower_ascii(trimmed(v)) == "true"@ || lower_ascii(trimmed(v)) == "1"@ || lower_ascii(trimmed(v)) == "yes"@))
            &&& field(names, record, "is_draft"@) == Some(v) && ascii_text(trimmed(v)) ==> (o.is_draft <==> (
                lower_ascii(trimmed(v)) == "true"@ || lower_ascii(trimmed(v)) == "1"@ || lower_ascii(trimmed(v)) == "yes"@))
            &&& field(names, record, "unmetered_bandwidth"@) == Some(v) && ascii_text(trimmed(v)) ==> (o.unmetered_bandwidth <==> (
                lower_ascii(trimmed(v)) == "true"@ || lower_ascii(trimmed(v)) == "1"@ || lower_ascii(trimmed(v)) == "yes"@))
        },
{
}

/// The billing unit of an imported row is its `billing_unit` cell as
/// written, and "month" only when that cell is empty or the column is
/// missing.
pub proof fn lemma_billing_unit_column(names: Seq<Seq<char>>, record: Seq<Seq<char>>, v: Seq<char>)
    ensures
        record_result(names, record) matches Ok(o) ==> {
            &&& field(names, record, "billing_unit"@) == Some(v) && v.len() > 0 ==> o.billing_unit == v
            &&& field(names, record, "billing_unit"@) == Some(v) && v.len() == 0 ==> o.billing_unit == "month"@
            &&& field(names, record, "billing_unit"@) is None ==> o.billing_unit == "month"@
        },
{
}

/// The source override of an import: the row records the given source; a
/// checkout link the row gives is always kept; only a seeded row without
/// one takes its product page as its checkout link; every other field is
/// left as parsed; and with no source the row is unchanged.
pub proof fn lemma_source_override(o: CsvOfferingView, s: Seq<char>)
    ensures
        with_source(o, None) == o,
        with_source(o, Some(s)).offering_source == Some(s),
        o.external_checkout_url is Some ==> with_source(o, Some(s)).external_checkout_url == o.external_checkout_url,
        s != "seeded"@ ==> with_source(o, Some(s)).external_checkout_url == o.external_checkout_url,
        s == "seeded"@ && o.external_checkout_url is None ==> with_source(o, Some(s)).external_checkout_url == o.product_page_url,
        (CsvOfferingView {
            offering_source: o.offering_source,
            external_checkout_url: o.external_checkout_url,
            ..with_source(o, Some(s))
        }) == o,
{
}

} // verus!
