use crate::generator::data_generator::UseCase;
use crate::text::{push_char, str_eq};
use vstd::prelude::*;

verus! {

/// Loader configuration: which use case's schema catalog drives the load.
pub struct DataLoaderConfig {
    pub use_case: UseCase,
}

// ---------------------------------------------------------------------------
// SQL statement generation (the store's dialect).
// ---------------------------------------------------------------------------

/// Texts joined with the separator `sep`.
pub open spec fn join_sep(parts: Seq<Seq<char>>, sep: Seq<char>) -> Seq<char>
    decreases parts.len(),
{
    if parts.len() == 0 {
        Seq::empty()
    } else if parts.len() == 1 {
        parts[0]
    } else {
        join_sep(parts.drop_last(), sep) + sep + parts.last()
    }
}

proof fn lemma_join_sep_push(parts: Seq<Seq<char>>, sep: Seq<char>, x: Seq<char>)
    ensures
        join_sep(parts.push(x), sep) == if parts.len() == 0 {
            x
        } else {
            join_sep(parts, sep) + sep + x
        },
{
    assert(parts.push(x).drop_last() =~= parts);
    assert(parts.push(x).last() == x);
}

/// One column's definition in a create-table statement: the time-index
/// column gets the timestamp definition, every other column is a string.
pub open spec fn col_def_str(col: Seq<char>) -> Seq<char> {
    if col == "ts"@ {
        col + " TIMESTAMP DEFAULT CURRENT_TIMESTAMP() TIME INDEX"@
    } else {
        col + " STRING"@
    }
}

/// Does some column carry the tag name?
pub open spec fn has_tag_col(cols: Seq<Seq<char>>) -> bool {
    exists|i: int| 0 <= i < cols.len() && cols[i] == "tag"@
}

/// The primary-key definition: present exactly when a tag column exists,
/// and empty otherwise (the empty text still takes a join slot, as the
/// dialect's statement builder always appends it).
pub open spec fn pk_def_str(cols: Seq<Seq<char>>) -> Seq<char> {
    if has_tag_col(cols) {
        "PRIMARY KEY (tag)"@
    } else {
        Seq::empty()
    }
}

/// The full create-table statement for a table and its column names.
pub open spec fn create_table_stmt_spec(table: Seq<char>, cols: Seq<Seq<char>>) -> Seq<char> {
    "CREATE TABLE "@ + table + " ("@ + join_sep(
        cols.map_values(|c: Seq<char>| col_def_str(c)).push(pk_def_str(cols)),
        ", "@,
    ) + ");"@
}

/// A text with every single quote doubled, the dialect's string escape.
pub open spec fn escape_quotes(s: Seq<char>) -> Seq<char>
    decreases s.len(),
{
    if s.len() == 0 {
        Seq::empty()
    } else {
        escape_quotes(s.drop_last()) + (if s.last() == '\'' {
            seq!['\'', '\'']
        } else {
            seq![s.last()]
        })
    }
}

/// A value as a quoted SQL string literal.
pub open spec fn quoted_value(v: Seq<char>) -> Seq<char> {
    seq!['\''] + escape_quotes(v) + seq!['\'']
}

/// One row's parenthesized value list, with its leading separator: the
/// first row starts with a space, later rows with a comma and a space.
pub open spec fn row_segment(row: Seq<Seq<char>>, i: int) -> Seq<char> {
    (if i == 0 {
        Seq::empty()
    } else {
        ","@
    }) + " ("@ + join_sep(row.map_values(|v: Seq<char>| quoted_value(v)), ","@) + ")"@
}

/// Every row's segment, concatenated in order.
pub open spec fn rows_str(data: Seq<Seq<Seq<char>>>) -> Seq<char>
    decreases data.len(),
{
    if data.len() == 0 {
        Seq::empty()
    } else {
        rows_str(data.drop_last()) + row_segment(data.last(), data.len() - 1)
    }
}

/// The full insert statement for a table, its column names, and its rows.
pub open spec fn insert_stmt_spec(
    table: Seq<char>,
    cols: Seq<Seq<char>>,
    data: Seq<Seq<Seq<char>>>,
) -> Seq<char> {
    "INSERT INTO "@ + table + "("@ + join_sep(cols, ","@) + ") VALUES"@ + rows_str(data) + ";"@
}

pub open spec fn strs_view(s: Seq<&str>) -> Seq<Seq<char>> {
    s.map_values(|x: &str| x@)
}

proof fn lemma_has_tag_step(cols: Seq<Seq<char>>, i: int)
    requires
        0 <= i < cols.len(),
    ensures
        has_tag_col(cols.take(i + 1)) == (has_tag_col(cols.take(i)) || cols[i] == "tag"@),
{
    let a = cols.take(i);
    let b = cols.take(i + 1);
    if has_tag_col(a) {
        let w = choose|j: int| 0 <= j < a.len() && a[j] == "tag"@;
        assert(b[w] == "tag"@);
    }
    if cols[i] == "tag"@ {
        assert(b[i] == "tag"@);
    }
    if has_tag_col(b) {
        let w = choose|j: int| 0 <= j < b.len() && b[j] == "tag"@;
        if w < i {
            assert(a[w] == "tag"@);
        }
    }
}

/// Generates a create-table statement in the store's dialect: a `tag`
/// column becomes the primary key, a `ts` column the time index, and every
/// column is typed as a string except the time index.
pub fn gen_create_table_stmt(hypertable: &str, cols: &[&str]) -> (r: String)
    ensures
        r@ == create_table_stmt_spec(hypertable@, strs_view(cols@)),
{
    let ghost cv = strs_view(cols@);
    let n = cols.len();
    let mut has_tag = false;
    let mut body = String::new();
    let mut i: usize = 0;
    while i < n
        invariant
            i <= n,
            n == cv.len(),
            cv == strs_view(cols@),
            has_tag == has_tag_col(cv.take(i as int)),
            body@ == join_sep(cv.take(i as int).map_values(|c: Seq<char>| col_def_str(c)), ", "@),
        decreases n - i,
    {
        proof {
            lemma_has_tag_step(cv, i as int);
            lemma_join_sep_push(
                cv.take(i as int).map_values(|c: Seq<char>| col_def_str(c)),
                ", "@,
                col_def_str(cv[i as int]),
            );
            assert(cv.take(i as int + 1).map_values(|c: Seq<char>| col_def_str(c)) =~= cv.take(
                i as int,
            ).map_values(|c: Seq<char>| col_def_str(c)).push(col_def_str(cv[i as int])));
        }
        if str_eq(cols[i], "tag") {
            has_tag = true;
        }
        if i > 0 {
            body.append(", ");
        }
        body.append(cols[i]);
        if str_eq(cols[i], "ts") {
            body.append(" TIMESTAMP DEFAULT CURRENT_TIMESTAMP() TIME INDEX");
        } else {
            body.append(" STRING");
        }
        i += 1;
    }
    proof {
        assert(cv.take(n as int) =~= cv);
        lemma_join_sep_push(
            cv.map_values(|c: Seq<char>| col_def_str(c)),
            ", "@,
            pk_def_str(cv),
        );
    }
    if n > 0 {
        body.append(", ");
    }
    if has_tag {
        body.append("PRIMARY KEY (tag)");
    }
    let mut out = String::from_str("CREATE TABLE ");
    out.append(hypertable);
    out.append(" (");
    out.append(body.as_str());
    out.append(");");
    out
}

fn escape_sql_str(s: &str) -> (r: String)
    ensures
        r@ == escape_quotes(s@),
{
    let n = s.unicode_len();
    let mut out = String::new();
    let mut i: usize = 0;
    while i < n
        invariant
            i <= n,
            n == s@.len(),
            out@ == escape_quotes(s@.take(i as int)),
        decreases n - i,
    {
        proof {
            assert(s@.take(i as int + 1).drop_last() =~= s@.take(i as int));
            assert(s@.take(i as int + 1).last() == s@[i as int]);
        }
        let c = s.get_char(i);
        if c == '\'' {
            out.append("''");
            proof {
                reveal_strlit("''");
                assert("''"@ =~= seq!['\'', '\'']);
            }
        } else {
            push_char(&mut out, c);
            proof {
                assert(out@ =~= escape_quotes(s@.take(i as int)) + seq![s@[i as int]]);
            }
        }
        i += 1;
    }
    proof {
        assert(s@.take(n as int) =~= s@);
    }
    out
}

/// Generates an insert statement in the store's dialect, quoting every
/// value as a string literal with single quotes doubled.
pub fn gen_insert_stmt(hypertable: &str, cols: &[&str], data: &[Vec<String>]) -> (r: String)
    ensures
        r@ == insert_stmt_spec(
            hypertable@,
            strs_view(cols@),
            data@.map_values(|row: Vec<String>| row.deep_view()),
        ),
{
    let ghost cv = strs_view(cols@);
    let ghost dv = data@.map_values(|row: Vec<String>| row.deep_view());
    let mut out = String::from_str("INSERT INTO ");
    out.append(hypertable);
    out.append("(");
    let n = cols.len();
    let mut i: usize = 0;
    let mut head = String::new();
    while i < n
        invariant
            i <= n,
            n == cv.len(),
            cv == strs_view(cols@),
            head@ == join_sep(cv.take(i as int), ","@),
        decreases n - i,
    {
        proof {
            lemma_join_sep_push(cv.take(i as int), ","@, cv[i as int]);
            assert(cv.take(i as int + 1) =~= cv.take(i as int).push(cv[i as int]));
        }
        if i > 0 {
            head.append(",");
        }
        head.append(cols[i]);
        i += 1;
    }
    proof {
        assert(cv.take(n as int) =~= cv);
    }
    out.append(head.as_str());
    out.append(") VALUES");

    let m = data.len();
    let mut r_i: usize = 0;
    while r_i < m
        invariant
            r_i <= m,
            m == dv.len(),
            dv == data@.map_values(|row: Vec<String>| row.deep_view()),
            out@ == "INSERT INTO "@ + hypertable@ + "("@ + join_sep(cv, ","@) + ") VALUES"@
                + rows_str(dv.take(r_i as int)),
            cv == strs_view(cols@),
        decreases m - r_i,
    {
        let row = &data[r_i];
        let ghost rv = row.deep_view();
        if r_i > 0 {
            out.append(",");
        }
        out.append(" (");
        let w = row.len();
        let mut j: usize = 0;
        let mut vals = String::new();
        while j < w
            invariant
                j <= w,
                w == rv.len(),
                rv == row.deep_view(),
                vals@ == join_sep(rv.take(j as int).map_values(|v: Seq<char>| quoted_value(v)), ","@),
            decreases w - j,
        {
            proof {
                lemma_join_sep_push(
                    rv.take(j as int).map_values(|v: Seq<char>| quoted_value(v)),
                    ","@,
                    quoted_value(rv[j as int]),
                );
                assert(rv.take(j as int + 1).map_values(|v: Seq<char>| quoted_value(v)) =~= rv.take(
                    j as int,
                ).map_values(|v: Seq<char>| quoted_value(v)).push(quoted_value(rv[j as int])));
            }
            if j > 0 {
                vals.append(",");
            }
            vals.append("'");
            let esc = escape_sql_str(row[j].as_str());
            vals.append(esc.as_str());
            vals.append("'");
            proof {
                reveal_strlit("'");
                assert("'"@ =~= seq!['\'']);
                assert(vals@ =~= join_sep(
                    rv.take(j as int).map_values(|v: Seq<char>| quoted_value(v)),
                    ","@,
                ) + (if j == 0 {
                    Seq::<char>::empty()
                } else {
                    ","@
                }) + quoted_value(rv[j as int]));
            }
            j += 1;
        }
        proof {
            assert(rv.take(w as int) =~= rv);
        }
        out.append(vals.as_str());
        out.append(")");
        proof {
            assert(dv.take(r_i as int + 1).drop_last() =~= dv.take(r_i as int));
            assert(dv.take(r_i as int + 1).last() == dv[r_i as int]);
            assert(dv[r_i as int] == rv);
        }
        r_i += 1;
    }
    proof {
        assert(dv.take(m as int) =~= dv);
    }
    out.append(";");
    out
}

} // verus!
