//! Synthesis of the log-filter directive string: the package name with
//! hyphens normalized to underscores, the two default `debug` directives,
//! and any caller-supplied extra fragments, comma-joined — or the operator's
//! override taken verbatim.

use vstd::prelude::*;
use vstd::string::StrSliceExecFns;
use vstd::string::StringExecFns;

verus! {

/// The package name as a directive target: every `-` becomes `_`.
pub open spec fn dash_to_underscore(s: Seq<char>) -> Seq<char> {
    s.map_values(
        |c: char|
            if c == '-' {
                '_'
            } else {
                c
            },
    )
}

/// Directive fragments joined with commas.
pub open spec fn join_directives(ds: Seq<Seq<char>>) -> Seq<char>
    decreases ds.len(),
{
    if ds.len() == 0 {
        Seq::empty()
    } else if ds.len() == 1 {
        ds[0]
    } else {
        ds[0] + seq![','] + join_directives(ds.drop_first())
    }
}

/// The synthesized filter: the normalized package and this library at
/// `debug`, then the extra fragments, if any.
pub open spec fn synthesized_filter(pkg: Seq<char>, extras: Seq<Seq<char>>) -> Seq<char> {
    let base = dash_to_underscore(pkg) + "=debug,rs_utils=debug"@;
    if extras.len() == 0 {
        base
    } else {
        base + seq![','] + join_directives(extras)
    }
}

proof fn lemma_join_push(ds: Seq<Seq<char>>, x: Seq<char>)
    ensures
        join_directives(ds.push(x)) == if ds.len() == 0 {
            x
        } else {
            (join_directives(ds) + seq![','] + x)
        },
    decreases ds.len(),
{
    if ds.len() == 0 {
        assert(ds.push(x).len() == 1);
        assert(ds.push(x)[0] == x);
        assert(join_directives(ds.push(x)) == x);
    } else if ds.len() == 1 {
        assert(ds.push(x)[0] == ds[0]);
        assert(ds.push(x).drop_first() =~= seq![x]);
        assert(seq![x].len() == 1 && seq![x][0] == x);
        assert(join_directives(seq![x]) == x);
        assert(join_directives(ds.push(x)) == ds[0] + seq![','] + x);
        assert(join_directives(ds) == ds[0]);
    } else {
        assert(ds.push(x).drop_first() =~= ds.drop_first().push(x));
        lemma_join_push(ds.drop_first(), x);
        assert(join_directives(ds.push(x)) =~= join_directives(ds) + seq![','] + x);
    }
}

/// Normalizes a package name into a directive target.
pub fn normalize_package_name(pkg: &str) -> (r: String)
    ensures
        r@ == dash_to_underscore(pkg@),
{
    let n = pkg.unicode_len();
    let mut out = String::new();
    let mut i: usize = 0;
    proof {
        assert(out@ =~= dash_to_underscore(pkg@.take(0)));
    }
    while i < n
        invariant
            n == pkg@.len(),
            i <= n,
            out@ == dash_to_underscore(pkg@.take(i as int)),
        decreases n - i,
    {
        let c = pkg.get_char(i);
        if c == '-' {
            out.append("_");
            proof {
                reveal_strlit("_");
            }
        } else {
            let piece = pkg.substring_char(i, i + 1);
            out.append(piece);
        }
        proof {
            assert(pkg@.subrange(i as int, i as int + 1) =~= seq![pkg@[i as int]]);
            assert(dash_to_underscore(pkg@.take(i as int + 1)) =~= dash_to_underscore(
                pkg@.take(i as int),
            ).push(
                if pkg@[i as int] == '-' {
                    '_'
                } else {
                    pkg@[i as int]
                },
            ));
            assert(out@ =~= dash_to_underscore(pkg@.take(i as int + 1)));
        }
        i = i + 1;
    }
    proof {
        assert(pkg@.take(n as int) =~= pkg@);
    }
    out
}

/// Joins directive fragments with commas.
pub fn join_directive_fragments(ds: &Vec<String>) -> (r: String)
    ensures
        r@ == join_directives(ds.deep_view()),
{
    let mut out = String::new();
    let mut i: usize = 0;
    proof {
        assert(ds.deep_view().take(0) =~= Seq::<Seq<char>>::empty());
    }
    while i < ds.len()
        invariant
            i <= ds.len(),
            out@ == join_directives(ds.deep_view().take(i as int)),
        decreases ds.len() - i,
    {
        if i > 0 {
            out.append(",");
            proof {
                reveal_strlit(",");
                assert(","@ =~= seq![',']);
            }
        }
        out.append(ds[i].as_str());
        proof {
            assert(ds.deep_view().take(i as int).push(ds.deep_view()[i as int]) =~= ds.deep_view()
                .take(i as int + 1));
            lemma_join_push(ds.deep_view().take(i as int), ds.deep_view()[i as int]);
            assert(ds.deep_view()[i as int] == ds@[i as int]@);
        }
        i = i + 1;
    }
    proof {
        assert(ds.deep_view().take(ds.len() as int) =~= ds.deep_view());
    }
    out
}

/// Builds the default filter directive for `pkg` and the extra fragments.
pub fn synthesize_filter(pkg: &str, extras: &Vec<String>) -> (r: String)
    ensures
        r@ == synthesized_filter(pkg@, extras.deep_view()),
{
    let mut out = normalize_package_name(pkg);
    out.append("=debug,rs_utils=debug");
    if extras.len() > 0 {
        out.append(",");
        proof {
            reveal_strlit(",");
            assert(","@ =~= seq![',']);
        }
        let joined = join_directive_fragments(extras);
        out.append(joined.as_str());
    }
    out
}

/// Resolves the filter directive: a validated override is used verbatim;
/// otherwise the default is synthesized from the package name and the extra
/// fragments.
pub fn resolve_filter(override_value: Option<String>, pkg: &str, extras: &Vec<String>) -> (r:
    String)
    ensures
        override_value matches Some(o) ==> r == o,
        override_value is None ==> r@ == synthesized_filter(pkg@, extras.deep_view()),
{
    match override_value {
        Some(o) => o,
        None => synthesize_filter(pkg, extras),
    }
}

} // verus!
