//! The orchestrator: resolves the run's platform set, plans the
//! crate-by-platform unit matrix, and aggregates per-unit outcomes so
//! that every failure is reported and none aborts its siblings.

use vstd::prelude::*;
use crate::assemble::PackagingError;
use crate::dedup::{dedup_first, dedup_names};
use crate::platform::{
    all_node_platforms, catalog, parse_node_platform, spec_parse, wf_model, ParseOutcome,
    PlatformDetail, PlatformError, PlatformModel,
};
use crate::text::vec_contains_str;

verus! {

/// Options of one packaging run.
#[derive(Clone, Debug)]
pub struct PackageCommand {
    /// Crates to package; empty means every crate in the build scope.
    pub crates: Vec<String>,
    /// Platform tokens to package for; absent means the full catalog.
    pub platforms: Option<Vec<String>>,
}

/// Whether a reported error matches a parse outcome, component lists
/// included.
pub open spec fn error_reports(o: ParseOutcome, e: PlatformError) -> bool {
    match o {
        ParseOutcome::BadFormat => e is InvalidPlatformFormat,
        ParseOutcome::UnknownOs(t) => e matches PlatformError::UnknownPlatformComponent {
            token,
            accepted,
        } && token@ == t && accepted.deep_view() == crate::platform::os_accepted_tokens(),
        ParseOutcome::UnknownCpu(t) => e matches PlatformError::UnknownPlatformComponent {
            token,
            accepted,
        } && token@ == t && accepted.deep_view() == crate::platform::arch_accepted_tokens(),
        ParseOutcome::Detail(_) => false,
    }
}

/// Strict resolution of a token list: the parsed targets in order, or
/// the outcome of the first token that does not parse.
pub open spec fn spec_resolve(tokens: Seq<Seq<char>>) -> Result<Seq<PlatformModel>, ParseOutcome>
    decreases tokens.len(),
{
    if tokens.len() == 0 {
        Ok(Seq::<PlatformModel>::empty())
    } else {
        match spec_resolve(tokens.drop_last()) {
            Err(o) => Err(o),
            Ok(ms) => match spec_parse(tokens.last()) {
                ParseOutcome::Detail(m) => Ok(ms.push(m)),
                o => Err(o),
            },
        }
    }
}

/// A failed prefix decides the whole resolution.
proof fn lemma_resolve_err_extends(tokens: Seq<Seq<char>>, k: int)
    requires
        0 <= k <= tokens.len(),
        spec_resolve(tokens.take(k)) is Err,
    ensures
        spec_resolve(tokens) == spec_resolve(tokens.take(k)),
    decreases tokens.len() - k,
{
    if k == tokens.len() {
        assert(tokens.take(k) =~= tokens);
    } else {
        assert(tokens.take(k + 1).drop_last() =~= tokens.take(k));
        assert(spec_resolve(tokens.take(k + 1)) == spec_resolve(tokens.take(k)));
        lemma_resolve_err_extends(tokens, k + 1);
    }
}

/// Parses every supplied platform token, strictly: the first token that
/// does not parse aborts the whole resolution with its error — a
/// malformed platform name is a usage error, not a per-unit failure.
pub fn resolve_platforms(tokens: &Vec<String>) -> (r: Result<Vec<PlatformDetail>, PlatformError>)
    ensures
        match spec_resolve(tokens.deep_view()) {
            Ok(ms) => r matches Ok(v) && v.deep_view() == ms && forall|i: int|
                0 <= i < ms.len() ==> wf_model(#[trigger] ms[i]),
            Err(o) => r matches Err(e) && error_reports(o, e),
        },
{
    let n = tokens.len();
    let mut out: Vec<PlatformDetail> = Vec::new();
    proof {
        assert(tokens.deep_view().take(0) =~= Seq::<Seq<char>>::empty());
        assert(out.deep_view() =~= Seq::<PlatformModel>::empty());
    }
    let mut i: usize = 0;
    while i < n
        invariant
            0 <= i <= n,
            n == tokens.len(),
            spec_resolve(tokens.deep_view().take(i as int)) == Ok::<_, ParseOutcome>(
                out.deep_view(),
            ),
            forall|k: int| 0 <= k < out.deep_view().len() ==> wf_model(#[trigger] out.deep_view()[k]),
        decreases n - i,
    {
        let ghost tv = tokens.deep_view();
        let ghost pre = out.deep_view();
        match parse_node_platform(tokens[i].as_str()) {
            Ok(p) => {
                out.push(p);
                proof {
                    assert(tv.take(i + 1).drop_last() =~= tv.take(i as int));
                    assert(tv.take(i + 1).last() == tv[i as int]);
                    assert(tv[i as int] == tokens@[i as int]@);
                    assert(out.deep_view() =~= pre.push(out.deep_view().last()));
                }
            },
            Err(e) => {
                proof {
                    assert(tv.take(i + 1).drop_last() =~= tv.take(i as int));
                    assert(tv.take(i + 1).last() == tv[i as int]);
                    assert(tv[i as int] == tokens@[i as int]@);
                    assert(spec_resolve(tv.take(i + 1)) is Err);
                    lemma_resolve_err_extends(tv, i + 1);
                }
                return Err(e);
            },
        }
        i = i + 1;
    }
    proof {
        assert(tokens.deep_view().take(n as int) =~= tokens.deep_view());
    }
    Ok(out)
}

/// The crates of a run: the caller's list, or every crate in the build
/// scope when the caller names none.
pub fn resolve_crates(supplied: Vec<String>, workspace: Vec<String>) -> (r: Vec<String>)
    ensures
        supplied@.len() == 0 ==> r@ == workspace@,
        supplied@.len() > 0 ==> r@ == supplied@,
{
    if supplied.len() == 0 {
        workspace
    } else {
        supplied
    }
}

/// The canonical tokens of a platform list, element by element.
pub open spec fn platform_tokens(ps: Seq<PlatformModel>) -> Seq<Seq<char>> {
    ps.map(|i: int, p: PlatformModel| p.token)
}

/// The platforms with a first-seen canonical token, in order.
pub open spec fn dedup_platforms(ps: Seq<PlatformModel>) -> Seq<PlatformModel>
    decreases ps.len(),
{
    if ps.len() == 0 {
        Seq::<PlatformModel>::empty()
    } else {
        let rest = dedup_platforms(ps.drop_last());
        if platform_tokens(rest).contains(ps.last().token) {
            rest
        } else {
            rest.push(ps.last())
        }
    }
}

/// What platform de-duplication is for: no canonical token twice.
pub proof fn lemma_dedup_platforms_distinct(ps: Seq<PlatformModel>)
    ensures
        forall|i: int, j: int|
            0 <= i < j < dedup_platforms(ps).len() ==> dedup_platforms(ps)[i].token
                != dedup_platforms(ps)[j].token,
    decreases ps.len(),
{
    if ps.len() > 0 {
        lemma_dedup_platforms_distinct(ps.drop_last());
        let rest = dedup_platforms(ps.drop_last());
        let d = dedup_platforms(ps);
        if !platform_tokens(rest).contains(ps.last().token) {
            assert forall|i: int, j: int| 0 <= i < j < d.len() implies d[i].token != d[j].token by {
                if j == d.len() - 1 {
                    assert(d[i] == rest[i]);
                    if d[i].token == ps.last().token {
                        assert(platform_tokens(rest)[i] == rest[i].token);
                        assert(platform_tokens(rest).contains(ps.last().token));
                    }
                }
            }
        }
    }
}

/// Drops every platform whose canonical token was already seen.
pub fn dedup_platform_list(platforms: &Vec<PlatformDetail>) -> (r: Vec<PlatformDetail>)
    ensures
        r.deep_view() == dedup_platforms(platforms.deep_view()),
{
    let n = platforms.len();
    let mut out: Vec<PlatformDetail> = Vec::new();
    let mut seen: Vec<String> = Vec::new();
    let mut i: usize = 0;
    while i < n
        invariant
            0 <= i <= n,
            n == platforms.len(),
            out.deep_view() == dedup_platforms(platforms.deep_view().take(i as int)),
            seen.deep_view() == platform_tokens(out.deep_view()),
        decreases n - i,
    {
        let ghost pv = platforms.deep_view();
        let ghost pre = out.deep_view();
        let ghost pres = seen.deep_view();
        let p = &platforms[i];
        if !vec_contains_str(&seen, p.platform_arch_abi.as_str()) {
            seen.push(p.platform_arch_abi.clone());
            out.push(p.clone_detail());
            proof {
                assert(out.deep_view() =~= pre.push(pv[i as int]));
                assert(seen.deep_view() =~= pres.push(pv[i as int].token));
                assert(seen.deep_view() =~= platform_tokens(out.deep_view()));
            }
        }
        proof {
            assert(pv.take(i + 1).drop_last() =~= pv.take(i as int));
            assert(pv.take(i + 1).last() == pv[i as int]);
            assert(pv[i as int] == platforms@[i as int]@);
        }
        i = i + 1;
    }
    proof {
        assert(platforms.deep_view().take(n as int) =~= platforms.deep_view());
    }
    out
}

/// One row of the unit matrix: every crate paired with one platform.
pub open spec fn unit_row(p: PlatformModel, crates: Seq<Seq<char>>) -> Seq<
    (Seq<char>, PlatformModel),
>
    decreases crates.len(),
{
    if crates.len() == 0 {
        Seq::<(Seq<char>, PlatformModel)>::empty()
    } else {
        unit_row(p, crates.drop_last()).push((crates.last(), p))
    }
}

/// The unit matrix: platforms outer, crates inner.
pub open spec fn cross_units(
    platforms: Seq<PlatformModel>,
    crates: Seq<Seq<char>>,
) -> Seq<(Seq<char>, PlatformModel)>
    decreases platforms.len(),
{
    if platforms.len() == 0 {
        Seq::<(Seq<char>, PlatformModel)>::empty()
    } else {
        cross_units(platforms.drop_last(), crates) + unit_row(platforms.last(), crates)
    }
}

/// One row pairs every crate, in order, with the row's platform.
proof fn lemma_unit_row_elems(p: PlatformModel, cs: Seq<Seq<char>>)
    ensures
        unit_row(p, cs).len() == cs.len(),
        forall|j: int| 0 <= j < cs.len() ==> unit_row(p, cs)[j] == (cs[j], p),
    decreases cs.len(),
{
    if cs.len() > 0 {
        lemma_unit_row_elems(p, cs.drop_last());
    }
}

/// The matrix has one unit per (platform, crate) index pair, laid out
/// row by row.
proof fn lemma_cross_units_elems(ps: Seq<PlatformModel>, cs: Seq<Seq<char>>)
    ensures
        cross_units(ps, cs).len() == ps.len() * cs.len(),
        forall|i: int, j: int|
            0 <= i < ps.len() && 0 <= j < cs.len() ==> cross_units(ps, cs)[i * cs.len() + j] == (
            cs[j],
            ps[i],
            ),
    decreases ps.len(),
{
    let n = ps.len() as int;
    let m = cs.len() as int;
    if n == 0 {
        assert(n * m == 0) by (nonlinear_arith)
            requires
                n == 0,
        ;
    } else {
        lemma_cross_units_elems(ps.drop_last(), cs);
        lemma_unit_row_elems(ps.last(), cs);
        assert((n - 1) * m + m == n * m) by (nonlinear_arith);
        assert(cross_units(ps.drop_last(), cs).len() == (n - 1) * m);
        assert(cross_units(ps, cs).len() == (n - 1) * m + m);
        assert forall|i: int, j: int| 0 <= i < n && 0 <= j < m implies cross_units(ps, cs)[i * m
            + j] == (cs[j], ps[i]) by {
            assert(0 <= i * m + j) by (nonlinear_arith)
                requires
                    0 <= i && 0 <= j && 0 <= m,
            ;
            if i < n - 1 {
                assert(i * m + j < (n - 1) * m) by (nonlinear_arith)
                    requires
                        0 <= i && i < n - 1 && 0 <= j && j < m,
                ;
                assert(cross_units(ps, cs)[i * m + j] == cross_units(ps.drop_last(), cs)[i * m
                    + j]);
                assert(ps.drop_last()[i] == ps[i]);
            } else {
                assert(i * m + j - (n - 1) * m == j);
                assert(cross_units(ps, cs)[i * m + j] == unit_row(ps.last(), cs)[j]);
            }
        }
    }
}

/// The key a unit is identified by: its crate and canonical token.
pub open spec fn unit_key_of(u: (Seq<char>, PlatformModel)) -> (Seq<char>, Seq<char>) {
    (u.0, u.1.token)
}

/// The planned matrix holds no (crate, platform) key twice: the two
/// lists are reduced to first occurrences before they are crossed.
pub proof fn lemma_plan_units_unique(platforms: Seq<PlatformModel>, crates: Seq<Seq<char>>)
    ensures
        forall|a: int, b: int|
            0 <= a < b < cross_units(dedup_platforms(platforms), dedup_first(crates)).len()
                ==> unit_key_of(
                #[trigger] cross_units(dedup_platforms(platforms), dedup_first(crates))[a],
            ) != unit_key_of(
                #[trigger] cross_units(dedup_platforms(platforms), dedup_first(crates))[b],
            ),
{
    let ps = dedup_platforms(platforms);
    let cs = dedup_first(crates);
    let n = ps.len() as int;
    let m = cs.len() as int;
    lemma_dedup_platforms_distinct(platforms);
    crate::dedup::lemma_dedup_first_distinct(crates);
    lemma_cross_units_elems(ps, cs);
    let units = cross_units(ps, cs);
    assert forall|a: int, b: int| 0 <= a < b < units.len() implies unit_key_of(units[a])
        != unit_key_of(units[b]) by {
        assert(m > 0 && n > 0) by (nonlinear_arith)
            requires
                0 <= n && 0 <= m && 0 <= b && b < n * m,
        ;
        vstd::arithmetic::div_mod::lemma_fundamental_div_mod(a, m);
        vstd::arithmetic::div_mod::lemma_fundamental_div_mod(b, m);
        vstd::arithmetic::div_mod::lemma_mod_division_less_than_divisor(a, m);
        vstd::arithmetic::div_mod::lemma_mod_division_less_than_divisor(b, m);
        let ia = a / m;
        let ja = a % m;
        let ib = b / m;
        let jb = b % m;
        assert(0 <= ia) by (nonlinear_arith)
            requires
                0 <= a && m > 0 && a == m * ia + ja && 0 <= ja < m,
        ;
        assert(ia < n) by (nonlinear_arith)
            requires
                a < n * m && m > 0 && a == m * ia + ja && 0 <= ja < m,
        ;
        assert(0 <= ib) by (nonlinear_arith)
            requires
                0 <= b && m > 0 && b == m * ib + jb && 0 <= jb < m,
        ;
        assert(ib < n) by (nonlinear_arith)
            requires
                b < n * m && m > 0 && b == m * ib + jb && 0 <= jb < m,
        ;
        assert(a == ia * m + ja) by (nonlinear_arith)
            requires
                a == m * ia + ja,
        ;
        assert(b == ib * m + jb) by (nonlinear_arith)
            requires
                b == m * ib + jb,
        ;
        assert(cross_units(ps, cs)[ia * m + ja] == (cs[ja], ps[ia]));
        assert(cross_units(ps, cs)[ib * m + jb] == (cs[jb], ps[ib]));
        assert(units[a] == (cs[ja], ps[ia]));
        assert(units[b] == (cs[jb], ps[ib]));
        if ia == ib {
            assert(ja != jb);
            assert(cs[ja] != cs[jb]);
        } else {
            assert(ps[ia].token != ps[ib].token);
        }
    }
}

/// Plans the unit matrix of a run: the cross product of the resolved
/// platforms and crates, each list reduced to first occurrences so that
/// no (crate, platform) pair appears twice.
pub fn plan_units(crates: &Vec<String>, platforms: &Vec<PlatformDetail>) -> (r: Vec<
    (String, PlatformDetail),
>)
    ensures
        r.deep_view() == cross_units(
            dedup_platforms(platforms.deep_view()),
            dedup_first(crates.deep_view()),
        ),
{
    let dp = dedup_platform_list(platforms);
    let dc = dedup_names(crates);
    let np = dp.len();
    let nc = dc.len();
    let mut r: Vec<(String, PlatformDetail)> = Vec::new();
    let mut i: usize = 0;
    while i < np
        invariant
            0 <= i <= np,
            np == dp.len(),
            nc == dc.len(),
            dp.deep_view() == dedup_platforms(platforms.deep_view()),
            dc.deep_view() == dedup_first(crates.deep_view()),
            r.deep_view() == cross_units(dp.deep_view().take(i as int), dc.deep_view()),
        decreases np - i,
    {
        let mut j: usize = 0;
        while j < nc
            invariant
                0 <= i < np,
                0 <= j <= nc,
                np == dp.len(),
                nc == dc.len(),
                dp.deep_view() == dedup_platforms(platforms.deep_view()),
                dc.deep_view() == dedup_first(crates.deep_view()),
                r.deep_view() == cross_units(dp.deep_view().take(i as int), dc.deep_view())
                    + unit_row(dp.deep_view()[i as int], dc.deep_view().take(j as int)),
            decreases nc - j,
        {
            let ghost pre = r.deep_view();
            r.push((dc[j].clone(), dp[i].clone_detail()));
            proof {
                let dcv = dc.deep_view();
                let dpv = dp.deep_view();
                assert(r.deep_view() =~= pre.push((dcv[j as int], dpv[i as int])));
                assert(dcv.take(j + 1).drop_last() =~= dcv.take(j as int));
                assert(dcv.take(j + 1).last() == dcv[j as int]);
            }
            j = j + 1;
        }
        proof {
            let dpv = dp.deep_view();
            let dcv = dc.deep_view();
            assert(dcv.take(nc as int) =~= dcv);
            assert(dpv.take(i + 1).drop_last() =~= dpv.take(i as int));
            assert(dpv.take(i + 1).last() == dpv[i as int]);
        }
        i = i + 1;
    }
    proof {
        assert(dp.deep_view().take(np as int) =~= dp.deep_view());
    }
    r
}

/// The key a packaging unit is reported under.
#[derive(Clone, Debug, PartialEq, Eq)]
pub struct UnitKey {
    pub crate_name: String,
    pub platform: String,
}

/// Every failure of a run, each under its unit's key; a run with any
/// entry here fails as a whole.
#[derive(Debug)]
pub struct AggregateError {
    pub failures: Vec<(UnitKey, PackagingError)>,
}

/// The failing entries of a result list, in order.
pub open spec fn failures_of(
    results: Seq<(UnitKey, Result<String, PackagingError>)>,
) -> Seq<(UnitKey, PackagingError)>
    decreases results.len(),
{
    if results.len() == 0 {
        Seq::<(UnitKey, PackagingError)>::empty()
    } else {
        let rest = failures_of(results.drop_last());
        match results.last().1 {
            Ok(_) => rest,
            Err(e) => rest.push((results.last().0, e)),
        }
    }
}

/// The produced package directories of a result list, in order.
pub open spec fn successes_of(
    results: Seq<(UnitKey, Result<String, PackagingError>)>,
) -> Seq<String>
    decreases results.len(),
{
    if results.len() == 0 {
        Seq::<String>::empty()
    } else {
        let rest = successes_of(results.drop_last());
        match results.last().1 {
            Ok(d) => rest.push(d),
            Err(_) => rest,
        }
    }
}

/// A run fails exactly when some unit failed.
pub proof fn lemma_failures_iff(results: Seq<(UnitKey, Result<String, PackagingError>)>)
    ensures
        failures_of(results).len() == 0 <==> forall|k: int|
            0 <= k < results.len() ==> (#[trigger] results[k]).1 is Ok,
    decreases results.len(),
{
    if results.len() > 0 {
        lemma_failures_iff(results.drop_last());
        assert(forall|k: int|
            0 <= k < results.len() - 1 ==> results.drop_last()[k] == #[trigger] results[k]);
    }
}

/// Partitions the per-unit outcomes of a run: when every unit
/// succeeded, the produced package directories in order; otherwise an
/// aggregate carrying every failing unit's key and error — every
/// failure is reported, not just the first.
pub fn collect_results(results: Vec<(UnitKey, Result<String, PackagingError>)>) -> (r: Result<
    Vec<String>,
    AggregateError,
>)
    ensures
        failures_of(results@).len() == 0 ==> (r matches Ok(v) && v@ == successes_of(results@)),
        failures_of(results@).len() > 0 ==> (r matches Err(a) && a.failures@ == failures_of(
            results@,
        )),
{
    let ghost all = results@;
    let mut rest = results;
    let ghost mut done: Seq<(UnitKey, Result<String, PackagingError>)> = Seq::empty();
    let mut succ: Vec<String> = Vec::new();
    let mut fails: Vec<(UnitKey, PackagingError)> = Vec::new();
    proof {
        assert(done + rest@ =~= all);
        assert(successes_of(done) =~= succ@);
        assert(failures_of(done) =~= fails@);
    }
    while rest.len() > 0
        invariant
            done + rest@ == all,
            succ@ == successes_of(done),
            fails@ == failures_of(done),
        decreases rest.len(),
    {
        let ghost prev = done;
        let ghost front = rest@[0];
        let (key, outcome) = rest.remove(0);
        match outcome {
            Ok(d) => succ.push(d),
            Err(e) => fails.push((key, e)),
        }
        proof {
            done = prev.push(front);
            assert(done.drop_last() =~= prev);
            assert(done + rest@ =~= all);
        }
    }
    proof {
        assert(done =~= all);
    }
    if fails.len() == 0 {
        Ok(succ)
    } else {
        Err(AggregateError { failures: fails })
    }
}

impl PackageCommand {
    /// The platform set of this run: the parsed override when one was
    /// given — any token that does not parse aborts the run — else the
    /// full catalog.
    pub fn resolve_platform_set(&self) -> (r: Result<Vec<PlatformDetail>, PlatformError>)
        ensures
            match self.platforms {
                Some(tokens) => match spec_resolve(tokens.deep_view()) {
                    Ok(ms) => r matches Ok(v) && v.deep_view() == ms,
                    Err(o) => r matches Err(e) && error_reports(o, e),
                },
                None => r matches Ok(v) && v@.len() == catalog().len() && forall|i: int|
                    0 <= i < v@.len() ==> wf_model(#[trigger] v@[i]@) && v@[i]@.token
                        == catalog()[i],
            },
    {
        match &self.platforms {
            Some(tokens) => resolve_platforms(tokens),
            None => Ok(all_node_platforms()),
        }
    }
}

} // verus!
