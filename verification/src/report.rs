use vstd::prelude::*;
use vstd::string::StringExecFns;
use crate::model::{JsonV, obj_field, str_field, int_field};
use crate::value::{jmodel, value_get, value_as_str, value_as_i64, value_as_array};
use crate::filter::jmodels;
use crate::fetch::FetchError;
use crate::brands::Brand;

verus! {

/// The character for one decimal digit.
pub open spec fn digit_char(d: nat) -> char {
    if d == 0 {
        '0'
    } else if d == 1 {
        '1'
    } else if d == 2 {
        '2'
    } else if d == 3 {
        '3'
    } else if d == 4 {
        '4'
    } else if d == 5 {
        '5'
    } else if d == 6 {
        '6'
    } else if d == 7 {
        '7'
    } else if d == 8 {
        '8'
    } else {
        '9'
    }
}

/// The decimal notation of a natural number, most significant digit first,
/// with no leading zeros (a single `'0'` for zero).
pub open spec fn dec_nat(n: nat) -> Seq<char>
    decreases n,
{
    if n < 10 {
        seq![digit_char(n)]
    } else {
        dec_nat(n / 10).push(digit_char(n % 10))
    }
}

/// The decimal notation of an integer: a leading `'-'` for negatives.
pub open spec fn dec_int(n: int) -> Seq<char> {
    if n < 0 {
        seq!['-'] + dec_nat((-n) as nat)
    } else {
        dec_nat(n as nat)
    }
}

/// One decimal digit as a string.
fn digit_str(d: u64) -> (r: String)
    requires
        d < 10,
    ensures
        r@ == seq![digit_char(d as nat)],
{
    let s: &str = if d == 0 {
        "0"
    } else if d == 1 {
        "1"
    } else if d == 2 {
        "2"
    } else if d == 3 {
        "3"
    } else if d == 4 {
        "4"
    } else if d == 5 {
        "5"
    } else if d == 6 {
        "6"
    } else if d == 7 {
        "7"
    } else if d == 8 {
        "8"
    } else {
        "9"
    };
    proof {
        reveal_strlit("0");
        reveal_strlit("1");
        reveal_strlit("2");
        reveal_strlit("3");
        reveal_strlit("4");
        reveal_strlit("5");
        reveal_strlit("6");
        reveal_strlit("7");
        reveal_strlit("8");
        reveal_strlit("9");
        assert(s@ =~= seq![digit_char(d as nat)]);
    }
    String::from_str(s)
}

/// Decimal notation of a `u64`.
pub fn u64_to_dec(n: u64) -> (r: String)
    ensures
        r@ == dec_nat(n as nat),
    decreases n,
{
    if n < 10 {
        digit_str(n)
    } else {
        let mut r = u64_to_dec(n / 10);
        let d = digit_str(n % 10);
        r.append(d.as_str());
        proof {
            assert(r@ =~= dec_nat(n as nat));
        }
        r
    }
}

/// Decimal notation of an `i64`.
pub fn i64_to_dec(n: i64) -> (r: String)
    ensures
        r@ == dec_int(n as int),
{
    if n >= 0 {
        u64_to_dec(n as u64)
    } else {
        let m: u64 = (-(n as i128)) as u64;
        proof {
            assert(m == -(n as int));
        }
        let mut r = String::from_str("-");
        let d = u64_to_dec(m);
        r.append(d.as_str());
        proof {
            reveal_strlit("-");
            assert(r@ =~= dec_int(n as int));
        }
        r
    }
}

/// A string field of the item, or the placeholder `"-"` when it is absent
/// or not a string.
pub fn field_or_dash(item: &serde_json::Value, key: &str) -> (r: String)
    ensures
        r@ == str_field(jmodel(*item), key@),
{
    match value_get(item, key) {
        Some(v) => match value_as_str(v) {
            Some(s) => String::from_str(s),
            None => String::from_str("-"),
        },
        None => String::from_str("-"),
    }
}

/// An integer field of the item, or `0` when it is absent or not an
/// integer.
pub fn weight_or_zero(item: &serde_json::Value, key: &str) -> (r: i64)
    ensures
        r == int_field(jmodel(*item), key@),
{
    match value_get(item, key) {
        Some(v) => match value_as_i64(v) {
            Some(n) => n,
            None => 0,
        },
        None => 0,
    }
}

/// The item's header line: brand id and the two dates.
pub open spec fn item_header(brand: Seq<char>, j: JsonV) -> Seq<char> {
    brand + " -> "@ + str_field(j, "startDate"@) + " - "@ + str_field(j, "endDate"@)
}

/// The item's name-and-author line.
pub open spec fn item_byline(j: JsonV) -> Seq<char> {
    str_field(j, "name"@) + " - "@ + str_field(j, "createdBy"@)
}

/// The item's description line.
pub open spec fn item_desc(j: JsonV) -> Seq<char> {
    "Description: "@ + str_field(j, "desc"@)
}

/// One recipe's line: id and weight, indented.
pub open spec fn recipe_line(r: JsonV) -> Seq<char> {
    "  "@ + str_field(r, "id"@) + " - "@ + dec_int(int_field(r, "weight"@) as int)
}

/// `recipe_line` as a first-class function.
pub open spec fn recipe_line_fn() -> spec_fn(JsonV) -> Seq<char> {
    |r: JsonV| recipe_line(r)
}

/// The lines of the item's recipe block: one line per recipe, or the
/// explicit `" None"` marker when the list is absent, empty, or not an
/// array.
pub open spec fn recipe_lines(j: JsonV) -> Seq<Seq<char>> {
    match obj_field(j, "recipes"@) {
        Some(JsonV::Arr(rs)) => if rs.len() == 0 {
            seq![" None"@]
        } else {
            rs.map_values(recipe_line_fn())
        },
        _ => seq![" None"@],
    }
}

/// All lines printed for one retained item, ended by a blank line.
pub open spec fn item_lines(brand: Seq<char>, j: JsonV) -> Seq<Seq<char>> {
    seq![item_header(brand, j), item_byline(j), item_desc(j), "Recipes:"@] + recipe_lines(j)
        + seq![""@]
}

/// Render one retained item, line by line.
pub fn render_item(brand_id: &str, item: &serde_json::Value) -> (out: Vec<String>)
    ensures
        out.deep_view() == item_lines(brand_id@, jmodel(*item)),
{
    let ghost j = jmodel(*item);
    let mut out: Vec<String> = Vec::new();

    let mut header = String::from_str(brand_id);
    header.append(" -> ");
    let start = field_or_dash(item, "startDate");
    header.append(start.as_str());
    header.append(" - ");
    let end = field_or_dash(item, "endDate");
    header.append(end.as_str());
    out.push(header);

    let mut byline = field_or_dash(item, "name");
    byline.append(" - ");
    let author = field_or_dash(item, "createdBy");
    byline.append(author.as_str());
    out.push(byline);

    let mut desc = String::from_str("Description: ");
    let d = field_or_dash(item, "desc");
    desc.append(d.as_str());
    out.push(desc);

    out.push(String::from_str("Recipes:"));
    let ghost head = seq![item_header(brand_id@, j), item_byline(j), item_desc(j), "Recipes:"@];
    proof {
        assert(out.deep_view() =~= head);
    }

    let mut printed_recipes = false;
    match value_get(item, "recipes") {
        Some(rv) => match value_as_array(rv) {
            Some(rs) => {
                if rs.len() > 0 {
                    let ghost rsm = jmodel(*rv)->Arr_0;
                    let mut k: usize = 0;
                    while k < rs.len()
                        invariant
                            k <= rs.len(),
                            rs@.len() == rsm.len(),
                            forall|i: int|
                                0 <= i < rs@.len() ==> jmodel(#[trigger] rs@[i]) == rsm[i],
                            out.deep_view() =~= head + rsm.take(k as int).map_values(
                                recipe_line_fn(),
                            ),
                        decreases rs.len() - k,
                    {
                        let mut line = String::from_str("  ");
                        let id = field_or_dash(&rs[k], "id");
                        line.append(id.as_str());
                        line.append(" - ");
                        let w = weight_or_zero(&rs[k], "weight");
                        let ws = i64_to_dec(w);
                        line.append(ws.as_str());
                        let ghost before = out.deep_view();
                        out.push(line);
                        proof {
                            assert(line@ == recipe_line(rsm[k as int]));
                            assert(out.deep_view() =~= before.push(line@));
                            assert(rsm.take(k + 1) =~= rsm.take(k as int).push(rsm[k as int]));
                            assert(rsm.take(k + 1).map_values(recipe_line_fn()) =~= rsm.take(
                                k as int,
                            ).map_values(recipe_line_fn()).push(recipe_line(rsm[k as int])));
                        }
                        k += 1;
                    }
                    printed_recipes = true;
                    proof {
                        assert(rsm.take(rsm.len() as int) =~= rsm);
                        assert(recipe_lines(j) == rsm.map_values(recipe_line_fn()));
                    }
                }
            },
            None => {},
        },
        None => {},
    }
    if !printed_recipes {
        let ghost before = out.deep_view();
        out.push(String::from_str(" None"));
        proof {
            assert(out.deep_view() =~= before.push(" None"@));
            assert(recipe_lines(j) =~= seq![" None"@]);
        }
    }

    let ghost before_blank = out.deep_view();
    out.push(String::new());
    proof {
        reveal_strlit("");
        assert(""@ =~= Seq::<char>::empty());
        assert(out.deep_view() =~= before_blank.push(""@));
        assert(out.deep_view() =~= item_lines(brand_id@, j));
    }
    out
}

/// `item_lines` for a fixed brand, as a first-class function.
pub open spec fn item_lines_fn(brand: Seq<char>) -> spec_fn(JsonV) -> Seq<Seq<char>> {
    |j: JsonV| item_lines(brand, j)
}

/// A brand section's header line: brand id and how many items were
/// retained.
pub open spec fn section_header(brand: Seq<char>, n: nat) -> Seq<char> {
    "=== "@ + brand + " === ("@ + dec_nat(n) + " items)"@
}

/// All lines of one brand's section: the header, a blank line, then every
/// retained item's lines in order.
pub open spec fn section_lines(brand: Seq<char>, items: Seq<JsonV>) -> Seq<Seq<char>> {
    seq![section_header(brand, items.len()), ""@] + items.flat_map(item_lines_fn(brand))
}

/// Render one brand's section, line by line.
pub fn render_section(brand_id: &str, items: &Vec<serde_json::Value>) -> (out: Vec<String>)
    ensures
        out.deep_view() == section_lines(brand_id@, jmodels(items@)),
{
    broadcast use vstd::prelude::Seq::lemma_flat_map_take_append;

    let ghost ms = jmodels(items@);
    let mut out: Vec<String> = Vec::new();
    let mut header = String::from_str("=== ");
    header.append(brand_id);
    header.append(" === (");
    let count = u64_to_dec(items.len() as u64);
    header.append(count.as_str());
    header.append(" items)");
    out.push(header);
    out.push(String::new());
    let ghost head = seq![section_header(brand_id@, ms.len()), ""@];
    proof {
        reveal_strlit("");
        assert(""@ =~= Seq::<char>::empty());
        assert(out.deep_view() =~= head);
        assert(ms.take(0) =~= Seq::<JsonV>::empty());
        assert(ms.take(0).flat_map(item_lines_fn(brand_id@)) =~= Seq::<Seq<char>>::empty());
    }
    let mut i: usize = 0;
    while i < items.len()
        invariant
            i <= items.len(),
            ms == jmodels(items@),
            out.deep_view() =~= head + ms.take(i as int).flat_map(item_lines_fn(brand_id@)),
        decreases items.len() - i,
    {
        let mut lines = render_item(brand_id, &items[i]);
        let ghost before = out.deep_view();
        let ghost added = lines.deep_view();
        out.append(&mut lines);
        proof {
            assert(out.deep_view() =~= before + added);
            assert(jmodel(items@[i as int]) == ms[i as int]);
            assert(added == item_lines_fn(brand_id@)(ms[i as int]));
            ms.lemma_flat_map_take_append(item_lines_fn(brand_id@), i as int);
        }
        i += 1;
    }
    proof {
        assert(ms.take(ms.len() as int) =~= ms);
    }
    out
}

/// What one brand contributes to the report: its retained items on
/// success, nothing on failure.
pub open spec fn result_items(r: Result<Vec<serde_json::Value>, FetchError>) -> Seq<JsonV> {
    match r {
        Ok(v) => jmodels(v@),
        Err(_) => Seq::empty(),
    }
}

/// One joined result's section, as a first-class function.
pub open spec fn section_fn() -> spec_fn((Brand, Result<Vec<serde_json::Value>, FetchError>)) -> Seq<
    Seq<char>,
> {
    |p: (Brand, Result<Vec<serde_json::Value>, FetchError>)|
        section_lines(p.0.id@, result_items(p.1))
}

/// One joined result's error-stream lines, as a first-class function: one
/// line for a failure, none for a success.
pub open spec fn error_fn() -> spec_fn((Brand, Result<Vec<serde_json::Value>, FetchError>)) -> Seq<
    Seq<char>,
> {
    |p: (Brand, Result<Vec<serde_json::Value>, FetchError>)|
        match p.1 {
            Ok(_) => Seq::empty(),
            Err(e) => seq![e.line_spec()],
        }
}

/// The whole run's standard output: every brand's section, in the order
/// the results were joined — the brand-list order, whatever order the
/// fetches finished in.
pub open spec fn run_stdout(rs: Seq<(Brand, Result<Vec<serde_json::Value>, FetchError>)>) -> Seq<
    Seq<char>,
> {
    rs.flat_map(section_fn())
}

/// The whole run's error stream: one line per failing brand, in join
/// order.
pub open spec fn run_stderr(rs: Seq<(Brand, Result<Vec<serde_json::Value>, FetchError>)>) -> Seq<
    Seq<char>,
> {
    rs.flat_map(error_fn())
}

proof fn lemma_flat_map_concat<A, B>(a: Seq<A>, b: Seq<A>, f: spec_fn(A) -> Seq<B>)
    ensures
        (a + b).flat_map(f) == a.flat_map(f) + b.flat_map(f),
    decreases b.len(),
{
    if b.len() == 0 {
        assert(a + b =~= a);
        assert(b.map_values(f) =~= Seq::<Seq<B>>::empty());
        assert(b.flat_map(f) =~= Seq::<B>::empty());
        assert(a.flat_map(f) + b.flat_map(f) =~= a.flat_map(f));
    } else {
        let b0 = b.drop_last();
        let x = b.last();
        lemma_flat_map_concat(a, b0, f);
        assert(a + b =~= (a + b0).push(x));
        (a + b0).lemma_flat_map_push(f, x);
        b0.lemma_flat_map_push(f, x);
        assert(b0.push(x) =~= b);
        assert((a + b).flat_map(f) =~= a.flat_map(f) + b.flat_map(f));
    }
}

/// Law: a brand's result affects that brand's stretch of the output
/// alone. The run's output is the output of the results before it, then
/// its own section, then the output of the results after it — so changing
/// one brand's result leaves every other brand's lines untouched.
pub proof fn lemma_brand_isolation(
    rs: Seq<(Brand, Result<Vec<serde_json::Value>, FetchError>)>,
    k: int,
)
    requires
        0 <= k < rs.len(),
    ensures
        run_stdout(rs) == run_stdout(rs.take(k)) + section_fn()(rs[k]) + run_stdout(
            rs.skip(k + 1),
        ),
        run_stderr(rs) == run_stderr(rs.take(k)) + error_fn()(rs[k]) + run_stderr(
            rs.skip(k + 1),
        ),
{
    let one = seq![rs[k]];
    assert(rs =~= rs.take(k) + one + rs.skip(k + 1));
    lemma_flat_map_concat(rs.take(k) + one, rs.skip(k + 1), section_fn());
    lemma_flat_map_concat(rs.take(k), one, section_fn());
    one.lemma_flat_map_singleton(section_fn());
    lemma_flat_map_concat(rs.take(k) + one, rs.skip(k + 1), error_fn());
    lemma_flat_map_concat(rs.take(k), one, error_fn());
    one.lemma_flat_map_singleton(error_fn());
}

/// Law: a failed brand contributes exactly its section header — counting
/// zero items — and the blank line after it, with no item bodies; and it
/// leaves exactly its one line on the error stream, while a successful
/// brand leaves none.
pub proof fn lemma_failed_brand_section(p: (Brand, Result<Vec<serde_json::Value>, FetchError>))
    ensures
        p.1 is Err ==> section_fn()(p) == seq![section_header(p.0.id@, 0), ""@],
        p.1 matches Err(e) ==> error_fn()(p) == seq![e.line_spec()],
        p.1 is Ok ==> error_fn()(p) == Seq::<Seq<char>>::empty(),
{
    if p.1 is Err {
        let items = result_items(p.1);
        assert(items =~= Seq::<JsonV>::empty());
        assert(items.map_values(item_lines_fn(p.0.id@)) =~= Seq::<Seq<Seq<char>>>::empty());
        assert(items.flat_map(item_lines_fn(p.0.id@)) =~= Seq::<Seq<char>>::empty());
        assert(section_fn()(p) =~= seq![section_header(p.0.id@, 0), ""@]);
    }
}

/// Render a whole run from the joined per-brand results: the standard
/// output lines and the error-stream lines. A failed brand keeps its
/// section — with zero items — and the other brands are untouched.
pub fn render_run(results: &Vec<(Brand, Result<Vec<serde_json::Value>, FetchError>)>) -> (r: (
    Vec<String>,
    Vec<String>,
))
    ensures
        r.0.deep_view() == run_stdout(results@),
        r.1.deep_view() == run_stderr(results@),
{
    broadcast use vstd::prelude::Seq::lemma_flat_map_take_append;

    let mut out: Vec<String> = Vec::new();
    let mut errs: Vec<String> = Vec::new();
    proof {
        assert(results@.take(0) =~= Seq::<(
            Brand,
            Result<Vec<serde_json::Value>, FetchError>,
        )>::empty());
        assert(results@.take(0).flat_map(section_fn()) =~= Seq::<Seq<char>>::empty());
        assert(results@.take(0).flat_map(error_fn()) =~= Seq::<Seq<char>>::empty());
        assert(out.deep_view() =~= Seq::<Seq<char>>::empty());
        assert(errs.deep_view() =~= Seq::<Seq<char>>::empty());
    }
    let mut i: usize = 0;
    while i < results.len()
        invariant
            i <= results.len(),
            out.deep_view() =~= results@.take(i as int).flat_map(section_fn()),
            errs.deep_view() =~= results@.take(i as int).flat_map(error_fn()),
        decreases results.len() - i,
    {
        let ghost p = results@[i as int];
        let ghost out_before = out.deep_view();
        let ghost errs_before = errs.deep_view();
        let brand = &results[i].0;
        match &results[i].1 {
            Ok(items) => {
                let mut sec = render_section(brand.id.as_str(), items);
                let ghost added = sec.deep_view();
                out.append(&mut sec);
                proof {
                    assert(out.deep_view() =~= out_before + added);
                    assert(added == section_fn()(p));
                    assert(errs.deep_view() =~= errs_before + error_fn()(p));
                    results@.lemma_flat_map_take_append(section_fn(), i as int);
                    results@.lemma_flat_map_take_append(error_fn(), i as int);
                }
            },
            Err(e) => {
                errs.push(e.line());
                let empty: Vec<serde_json::Value> = Vec::new();
                let mut sec = render_section(brand.id.as_str(), &empty);
                let ghost added = sec.deep_view();
                out.append(&mut sec);
                proof {
                    assert(jmodels(empty@) =~= Seq::<JsonV>::empty());
                    assert(out.deep_view() =~= out_before + added);
                    assert(added == section_fn()(p));
                    assert(errs.deep_view() =~= errs_before.push(e.line_spec()));
                    assert(errs_before + error_fn()(p) =~= errs_before.push(e.line_spec()));
                    results@.lemma_flat_map_take_append(section_fn(), i as int);
                    results@.lemma_flat_map_take_append(error_fn(), i as int);
                }
            },
        }
        i += 1;
    }
    proof {
        assert(results@.take(results@.len() as int) =~= results@);
    }
    (out, errs)
}

} // verus!
