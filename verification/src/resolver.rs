//! The module identity resolver.
//!
//! From the quote's declared module version the resolver computes an
//! expected identity tag, scans the collateral's module identities for an
//! exact match, maps each matching identity's TCB levels to code space,
//! and orders the collected levels by security version number descending,
//! stably.  The sort is specified exactly: the output is the
//! concatenation, for every version value from highest to lowest, of the
//! input's levels with that value in their original order.

use vstd::prelude::*;

use crate::chars::hex_digit_char;
use crate::chars::hex_digit_str;
use crate::errors::PrepError;
use crate::hexops::{hex_decode, hex_decode_of, parse_hex_u64};
use crate::chars::{all_hex_digits, hex_val};
use crate::status::{map_tcb_status, status_code_spec, str_eq};
use crate::types::{
    TcbInfoView, TdxModule, TdxModuleIdentityRaw, TdxModuleIdentityTcbLevel,
    TdxModuleIdentityTcbLevelRaw, TdxModuleTcb,
};
use vstd::string::StringExecFns;

verus! {

broadcast use vstd::string::group_string_axioms;

// ---------------------------------------------------------------------
// The expected identity tag.
// ---------------------------------------------------------------------

/// The expected identity tag for a module version: a fixed prefix and two
/// lowercase hex digits.
pub open spec fn expected_id_spec(version: u8) -> Seq<char> {
    seq!['T', 'D', 'X', '_', hex_digit_char((version >> 4) as nat), hex_digit_char(
        (version & 0xf) as nat,
    )]
}

/// Formats the expected identity tag for a module version.
pub fn expected_module_id(version: u8) -> (r: String)
    ensures
        r@ == expected_id_spec(version),
{
    let mut s = String::from_str("TDX_");
    proof {
        reveal_strlit("TDX_");
    }
    let hi = version >> 4;
    let lo = version & 0xf;
    proof {
        assert(hi < 16 && lo < 16) by (bit_vector)
            requires
                hi == version >> 4 && lo == version & 0xf,
        ;
    }
    s.append(hex_digit_str(hi));
    s.append(hex_digit_str(lo));
    proof {
        assert(s@ =~= expected_id_spec(version));
    }
    s
}

// ---------------------------------------------------------------------
// Collecting the matching identities' levels.
// ---------------------------------------------------------------------

/// The code-space image of one collateral TCB level.
pub open spec fn mapped_level_spec(r: TdxModuleIdentityTcbLevelRaw) -> TdxModuleIdentityTcbLevel {
    TdxModuleIdentityTcbLevel {
        tcb: TdxModuleTcb { isvsvn: r.isvsvn },
        tcb_status: status_code_spec(r.tcb_status@),
    }
}

/// The code-space image of a list of collateral TCB levels.
pub open spec fn mapped_levels_spec(rs: Seq<TdxModuleIdentityTcbLevelRaw>) -> Seq<
    TdxModuleIdentityTcbLevel,
> {
    rs.map_values(|r: TdxModuleIdentityTcbLevelRaw| mapped_level_spec(r))
}

/// Whether some identity in the list carries exactly the expected id.
pub open spec fn has_matching_identity(idents: Seq<TdxModuleIdentityRaw>, exp: Seq<char>) -> bool {
    exists|i: int| 0 <= i < idents.len() && (#[trigger] idents[i]).id@ == exp
}

/// The mapped TCB levels of every identity whose id equals the expected
/// tag, in the order the identities and their levels appear.
pub open spec fn matching_levels_spec(idents: Seq<TdxModuleIdentityRaw>, exp: Seq<char>) -> Seq<
    TdxModuleIdentityTcbLevel,
>
    decreases idents.len(),
{
    if idents.len() == 0 {
        Seq::empty()
    } else {
        matching_levels_spec(idents.drop_last(), exp) + (if idents.last().id@ == exp {
            mapped_levels_spec(idents.last().tcb_levels@)
        } else {
            Seq::empty()
        })
    }
}

/// Maps the raw TCB levels of one identity to code space.
fn map_raw_levels(raws: &Vec<TdxModuleIdentityTcbLevelRaw>) -> (out: Vec<TdxModuleIdentityTcbLevel>)
    ensures
        out@ == mapped_levels_spec(raws@),
{
    let mut out: Vec<TdxModuleIdentityTcbLevel> = Vec::new();
    let mut j: usize = 0;
    while j < raws.len()
        invariant
            0 <= j <= raws@.len(),
            out@ == mapped_levels_spec(raws@.take(j as int)),
        decreases raws@.len() - j,
    {
        let code = map_tcb_status(raws[j].tcb_status.as_str());
        out.push(TdxModuleIdentityTcbLevel { tcb: TdxModuleTcb { isvsvn: raws[j].isvsvn }, tcb_status: code });
        proof {
            assert(out@ =~= mapped_levels_spec(raws@.take(j as int + 1)));
        }
        j = j + 1;
    }
    proof {
        assert(raws@.take(raws@.len() as int) =~= raws@);
    }
    out
}

/// Collects the mapped levels of every identity matching the expected id,
/// and reports whether any matched.
fn collect_matching_levels(idents: &Vec<TdxModuleIdentityRaw>, expected: &str) -> (r: (
    Vec<TdxModuleIdentityTcbLevel>,
    bool,
))
    ensures
        r.0@ == matching_levels_spec(idents@, expected@),
        r.1 == has_matching_identity(idents@, expected@),
{
    let mut out: Vec<TdxModuleIdentityTcbLevel> = Vec::new();
    let mut found = false;
    let mut i: usize = 0;
    proof {
        assert(idents@.take(0) =~= Seq::<TdxModuleIdentityRaw>::empty());
    }
    while i < idents.len()
        invariant
            0 <= i <= idents@.len(),
            out@ == matching_levels_spec(idents@.take(i as int), expected@),
            found == has_matching_identity(idents@.take(i as int), expected@),
        decreases idents@.len() - i,
    {
        proof {
            assert(idents@.take(i as int + 1).drop_last() =~= idents@.take(i as int));
            assert(idents@.take(i as int + 1).last() == idents@[i as int]);
        }
        if str_eq(idents[i].id.as_str(), expected) {
            found = true;
            let mut mapped = map_raw_levels(&idents[i].tcb_levels);
            out.append(&mut mapped);
            proof {
                assert(has_matching_identity(idents@.take(i as int + 1), expected@));
            }
        } else {
            proof {
                assert(out@ =~= matching_levels_spec(idents@.take(i as int + 1), expected@));
                if found {
                    let w = choose|k: int|
                        0 <= k < idents@.take(i as int).len() && (#[trigger] idents@.take(
                            i as int,
                        )[k]).id@ == expected@;
                    assert(idents@.take(i as int + 1)[w] == idents@.take(i as int)[w]);
                    assert(has_matching_identity(idents@.take(i as int + 1), expected@));
                } else {
                    assert forall|k: int| 0 <= k < i + 1 implies !((
                    #[trigger] idents@.take(i as int + 1)[k]).id@ == expected@) by {
                        if k < i {
                            assert(idents@.take(i as int + 1)[k] == idents@.take(i as int)[k]);
                        }
                    }
                }
            }
        }
        i = i + 1;
    }
    proof {
        assert(idents@.take(idents@.len() as int) =~= idents@);
    }
    (out, found)
}

// ---------------------------------------------------------------------
// The stable descending sort.
// ---------------------------------------------------------------------

/// The levels of `levels` whose version lies in `lo..=hi`, grouped by
/// version from `hi` down to `lo`, each group in original order.
pub open spec fn desc_sorted_partial(
    levels: Seq<TdxModuleIdentityTcbLevel>,
    hi: int,
    lo: int,
) -> Seq<TdxModuleIdentityTcbLevel>
    decreases hi + 1 - lo,
{
    if hi < lo {
        Seq::empty()
    } else {
        levels.filter(|l: TdxModuleIdentityTcbLevel| l.tcb.isvsvn == hi) + desc_sorted_partial(
            levels,
            hi - 1,
            lo,
        )
    }
}

/// The stable descending order of a level list: for every version value
/// from highest to lowest, the levels with that value in original order.
pub open spec fn sort_desc_spec(levels: Seq<TdxModuleIdentityTcbLevel>) -> Seq<
    TdxModuleIdentityTcbLevel,
> {
    desc_sorted_partial(levels, 255, 0)
}

/// Peeling the lowest version off a grouped range appends its group.
proof fn lemma_desc_partial_peel_low(levels: Seq<TdxModuleIdentityTcbLevel>, hi: int, lo: int)
    requires
        lo <= hi,
    ensures
        desc_sorted_partial(levels, hi, lo) == desc_sorted_partial(levels, hi, lo + 1)
            + levels.filter(|l: TdxModuleIdentityTcbLevel| l.tcb.isvsvn == lo),
    decreases hi - lo,
{
    reveal(Seq::filter);
    if lo == hi {
        assert(desc_sorted_partial(levels, hi - 1, lo) =~= Seq::<TdxModuleIdentityTcbLevel>::empty());
        assert(desc_sorted_partial(levels, hi, lo + 1) =~= Seq::<
            TdxModuleIdentityTcbLevel,
        >::empty());
        assert(desc_sorted_partial(levels, hi, lo) =~= desc_sorted_partial(levels, hi, lo + 1)
            + levels.filter(|l: TdxModuleIdentityTcbLevel| l.tcb.isvsvn == lo));
    } else {
        lemma_desc_partial_peel_low(levels, hi - 1, lo);
        assert(desc_sorted_partial(levels, hi, lo) =~= desc_sorted_partial(levels, hi, lo + 1)
            + levels.filter(|l: TdxModuleIdentityTcbLevel| l.tcb.isvsvn == lo));
    }
}

/// Orders the levels by security version number descending; levels with
/// equal version keep their original relative order.
pub fn sort_levels_desc(levels: &Vec<TdxModuleIdentityTcbLevel>) -> (out: Vec<
    TdxModuleIdentityTcbLevel,
>)
    ensures
        out@ == sort_desc_spec(levels@),
{
    let mut out: Vec<TdxModuleIdentityTcbLevel> = Vec::new();
    proof {
        reveal(Seq::filter);
    }
    let mut v: u16 = 256;
    while v > 0
        invariant
            0 <= v <= 256,
            out@ == desc_sorted_partial(levels@, 255, v as int),
        decreases v,
    {
        let target: u16 = v - 1;
        let ghost prefix = out@;
        let mut i: usize = 0;
        while i < levels.len()
            invariant
                0 <= i <= levels@.len(),
                1 <= v <= 256,
                target == v - 1,
                out@ == prefix + levels@.take(i as int).filter(
                    |l: TdxModuleIdentityTcbLevel| l.tcb.isvsvn == target as int,
                ),
            decreases levels@.len() - i,
        {
            proof {
                reveal(Seq::filter);
                let pred = |l: TdxModuleIdentityTcbLevel| l.tcb.isvsvn == target as int;
                assert(levels@.take(i as int + 1).drop_last() =~= levels@.take(i as int));
                assert(levels@.take(i as int + 1).last() == levels@[i as int]);
            }
            if levels[i].tcb.isvsvn as u16 == target {
                out.push(levels[i]);
            }
            proof {
                reveal(Seq::filter);
                let pred = |l: TdxModuleIdentityTcbLevel| l.tcb.isvsvn == target as int;
                if levels@[i as int].tcb.isvsvn == target {
                    assert(out@ =~= prefix + levels@.take(i as int + 1).filter(pred));
                } else {
                    assert(out@ =~= prefix + levels@.take(i as int + 1).filter(pred));
                }
            }
            i = i + 1;
        }
        proof {
            reveal(Seq::filter);
            let pred = |l: TdxModuleIdentityTcbLevel| l.tcb.isvsvn == target as int;
            assert(levels@.take(levels@.len() as int) =~= levels@);
            lemma_desc_partial_peel_low(levels@, 255, target as int);
        }
        v = target;
    }
    out
}

// ---------------------------------------------------------------------
// The resolver.
// ---------------------------------------------------------------------

/// Whether the module section's signer measurement is valid hex of the
/// fixed 48-byte width.
pub open spec fn mrsigner_hex_ok(s: Seq<char>) -> bool {
    s.len() % 2 == 0 && all_hex_digits(s)
}

/// Whether an attributes field is valid hex for a 64-bit value.
pub open spec fn attributes_ok(s: Seq<char>) -> bool {
    s.len() > 0 && all_hex_digits(s) && hex_val(s) <= u64::MAX
}

/// Everything resolution needs of the collateral, as one condition: the
/// module section and the identity section are present, some identity
/// matches the expected tag, the signer measurement decodes to its fixed
/// width, and both attribute masks parse as 64-bit hex.
pub open spec fn resolve_ok(t: TcbInfoView, version: u8) -> bool {
    &&& t.tdx_module is Some
    &&& t.tdx_module_identities is Some
    &&& has_matching_identity(t.tdx_module_identities->0@, expected_id_spec(version))
    &&& mrsigner_hex_ok(t.tdx_module->0.mrsigner@)
    &&& hex_decode_of(t.tdx_module->0.mrsigner@).len() == 48
    &&& attributes_ok(t.tdx_module->0.attributes@)
    &&& attributes_ok(t.tdx_module->0.attributes_mask@)
}

/// The failure a resolution reports, checked in declaration order.
pub open spec fn resolve_err(t: TcbInfoView, version: u8) -> PrepError {
    if t.tdx_module is None || t.tdx_module_identities is None {
        PrepError::MissingCollateralSection
    } else if !has_matching_identity(t.tdx_module_identities->0@, expected_id_spec(version)) {
        PrepError::NoMatchingIdentity
    } else if !mrsigner_hex_ok(t.tdx_module->0.mrsigner@) {
        PrepError::InvalidHexOrRangeOverflow
    } else if hex_decode_of(t.tdx_module->0.mrsigner@).len() != 48 {
        PrepError::ShapeMismatch
    } else {
        PrepError::InvalidHexOrRangeOverflow
    }
}

/// Resolves the module identity matching the quote's declared module
/// version: selects the matching identities' TCB levels, maps their
/// statuses to code space, sorts them by version descending (stable), and
/// decodes the module section's signer measurement and attribute masks.
pub fn resolve_tdx_module(tcb_info: &TcbInfoView, version: u8) -> (r: Result<TdxModule, PrepError>)
    ensures
        (r is Ok) == resolve_ok(*tcb_info, version),
        r matches Ok(m) ==> {
            &&& m.expected_id@ == expected_id_spec(version)
            &&& m.identity_id@ == expected_id_spec(version)
            &&& m.tcb_levels@ == sort_desc_spec(
                matching_levels_spec(
                    tcb_info.tdx_module_identities->0@,
                    expected_id_spec(version),
                ),
            )
            &&& m.mrsigner@ == hex_decode_of(tcb_info.tdx_module->0.mrsigner@)
            &&& m.mrsigner@.len() == 48
            &&& m.attributes == hex_val(tcb_info.tdx_module->0.attributes@)
            &&& m.attributes_mask == hex_val(tcb_info.tdx_module->0.attributes_mask@)
        },
        r matches Err(e) ==> e == resolve_err(*tcb_info, version),
{
    let module_raw = match &tcb_info.tdx_module {
        Some(m) => m,
        None => {
            return Err(PrepError::MissingCollateralSection);
        },
    };
    let idents = match &tcb_info.tdx_module_identities {
        Some(ids) => ids,
        None => {
            return Err(PrepError::MissingCollateralSection);
        },
    };
    let expected_id = expected_module_id(version);
    let (collected, found) = collect_matching_levels(idents, expected_id.as_str());
    if !found {
        return Err(PrepError::NoMatchingIdentity);
    }
    let levels = sort_levels_desc(&collected);
    let mrsigner = match hex_decode(module_raw.mrsigner.as_str()) {
        Some(b) => b,
        None => {
            return Err(PrepError::InvalidHexOrRangeOverflow);
        },
    };
    if mrsigner.len() != 48 {
        return Err(PrepError::ShapeMismatch);
    }
    let attributes = match parse_hex_u64(module_raw.attributes.as_str()) {
        Some(v) => v,
        None => {
            return Err(PrepError::InvalidHexOrRangeOverflow);
        },
    };
    let attributes_mask = match parse_hex_u64(module_raw.attributes_mask.as_str()) {
        Some(v) => v,
        None => {
            return Err(PrepError::InvalidHexOrRangeOverflow);
        },
    };
    let identity_id = expected_id.clone();
    Ok(
        TdxModule {
            mrsigner,
            attributes,
            attributes_mask,
            identity_id,
            expected_id,
            tcb_levels: levels,
        },
    )
}

// ---------------------------------------------------------------------
// Laws of the resolver.
// ---------------------------------------------------------------------

/// Every level of a grouped range has its version within the range, and
/// the range is non-increasing.
proof fn lemma_partial_sorted(levels: Seq<TdxModuleIdentityTcbLevel>, hi: int, lo: int)
    requires
        lo <= hi + 1,
    ensures
        forall|i: int|
            0 <= i < desc_sorted_partial(levels, hi, lo).len() ==> lo <= (
            #[trigger] desc_sorted_partial(levels, hi, lo)[i]).tcb.isvsvn <= hi,
        forall|i: int, j: int|
            0 <= i <= j < desc_sorted_partial(levels, hi, lo).len() ==> (
            #[trigger] desc_sorted_partial(levels, hi, lo)[i]).tcb.isvsvn >= (
            #[trigger] desc_sorted_partial(levels, hi, lo)[j]).tcb.isvsvn,
    decreases hi + 1 - lo,
{
    broadcast use vstd::seq_lib::group_filter_ensures;

    if lo <= hi {
        lemma_partial_sorted(levels, hi - 1, lo);
        let f = levels.filter(|l: TdxModuleIdentityTcbLevel| l.tcb.isvsvn == hi);
        let rest = desc_sorted_partial(levels, hi - 1, lo);
        let whole = desc_sorted_partial(levels, hi, lo);
        assert(whole == f + rest);
        assert forall|i: int| 0 <= i < whole.len() implies lo <= (#[trigger] whole[i]).tcb.isvsvn
            <= hi by {
            if i < f.len() {
                assert(whole[i] == f[i]);
            } else {
                assert(whole[i] == rest[i - f.len()]);
            }
        }
    }
}

/// Every element of a filtered list satisfies the predicate's value;
/// filtering it again by a different value gives nothing, by the same
/// value gives it back.
proof fn lemma_filter_all_pos<A>(s: Seq<A>, p: spec_fn(A) -> bool)
    requires
        forall|i: int| 0 <= i < s.len() ==> p(#[trigger] s[i]),
    ensures
        s.filter(p) == s,
    decreases s.len(),
{
    reveal(Seq::filter);
    if s.len() > 0 {
        lemma_filter_all_pos(s.drop_last(), p);
        assert(s.drop_last().push(s.last()) =~= s);
    }
}

/// The group of one version value inside a grouped range: the input's
/// own group when the value lies in the range, nothing otherwise.
proof fn lemma_partial_filter(
    levels: Seq<TdxModuleIdentityTcbLevel>,
    hi: int,
    lo: int,
    v: int,
)
    requires
        lo <= hi + 1,
    ensures
        desc_sorted_partial(levels, hi, lo).filter(
            |l: TdxModuleIdentityTcbLevel| l.tcb.isvsvn == v,
        ) == if lo <= v <= hi {
            levels.filter(|l: TdxModuleIdentityTcbLevel| l.tcb.isvsvn == v)
        } else {
            Seq::<TdxModuleIdentityTcbLevel>::empty()
        },
    decreases hi + 1 - lo,
{
    broadcast use vstd::seq_lib::group_filter_ensures;

    reveal(Seq::filter);
    let pv = |l: TdxModuleIdentityTcbLevel| l.tcb.isvsvn == v;
    if hi < lo {
        assert(desc_sorted_partial(levels, hi, lo).filter(pv) =~= Seq::<
            TdxModuleIdentityTcbLevel,
        >::empty());
    } else {
        lemma_partial_filter(levels, hi - 1, lo, v);
        let f = levels.filter(|l: TdxModuleIdentityTcbLevel| l.tcb.isvsvn == hi);
        let rest = desc_sorted_partial(levels, hi - 1, lo);
        Seq::filter_distributes_over_add(f, rest, pv);
        if v == hi {
            lemma_filter_all_pos(f, pv);
            if lo <= v <= hi - 1 {
            } else {
                assert(rest.filter(pv) =~= Seq::<TdxModuleIdentityTcbLevel>::empty()) by {
                    lemma_partial_sorted(levels, hi - 1, lo);
                    rest.lemma_all_neg_filter_empty(pv);
                }
            }
            assert(f + rest.filter(pv) =~= f + Seq::<TdxModuleIdentityTcbLevel>::empty());
            assert(f + Seq::<TdxModuleIdentityTcbLevel>::empty() =~= f);
        } else {
            f.lemma_all_neg_filter_empty(pv);
            assert(Seq::<TdxModuleIdentityTcbLevel>::empty() + rest.filter(pv) =~= rest.filter(
                pv,
            ));
        }
    }
}

/// The input's levels carrying one version value, in original order.
pub open spec fn svn_group(ls: Seq<TdxModuleIdentityTcbLevel>, v: int) -> Seq<
    TdxModuleIdentityTcbLevel,
> {
    ls.filter(|l: TdxModuleIdentityTcbLevel| l.tcb.isvsvn == v)
}

/// Sort invariant: after resolution the level list is non-increasing in
/// security version number, and levels with equal version keep their
/// original relative order: restricted to any one version value, the
/// output equals the input's own sublist.
pub proof fn lemma_sort_invariant(levels: Seq<TdxModuleIdentityTcbLevel>)
    ensures
        forall|i: int, j: int|
            0 <= i <= j < sort_desc_spec(levels).len() ==> (
            #[trigger] sort_desc_spec(levels)[i]).tcb.isvsvn >= (
            #[trigger] sort_desc_spec(levels)[j]).tcb.isvsvn,
        forall|v: int| #[trigger] svn_group(sort_desc_spec(levels), v) == svn_group(levels, v),
{
    broadcast use vstd::seq_lib::group_filter_ensures;

    lemma_partial_sorted(levels, 255, 0);
    assert forall|v: int| #[trigger] svn_group(sort_desc_spec(levels), v) == svn_group(
        levels,
        v,
    ) by {
        lemma_partial_filter(levels, 255, 0, v);
        if !(0 <= v <= 255) {
            levels.lemma_all_neg_filter_empty(
                |l: TdxModuleIdentityTcbLevel| l.tcb.isvsvn == v,
            );
        }
    }
}

/// The concatenated mapped levels of a list of identities, all taken.
spec fn concat_identity_levels(f: Seq<TdxModuleIdentityRaw>) -> Seq<TdxModuleIdentityTcbLevel>
    decreases f.len(),
{
    if f.len() == 0 {
        Seq::empty()
    } else {
        concat_identity_levels(f.drop_last()) + mapped_levels_spec(f.last().tcb_levels@)
    }
}

/// The matching levels depend only on the subsequence of matching
/// identities.
proof fn lemma_matching_levels_filtered(idents: Seq<TdxModuleIdentityRaw>, exp: Seq<char>)
    ensures
        matching_levels_spec(idents, exp) == concat_identity_levels(
            idents.filter(|i: TdxModuleIdentityRaw| i.id@ == exp),
        ),
    decreases idents.len(),
{
    reveal(Seq::filter);
    let p = |i: TdxModuleIdentityRaw| i.id@ == exp;
    if idents.len() > 0 {
        lemma_matching_levels_filtered(idents.drop_last(), exp);
        if idents.last().id@ == exp {
            assert(idents.filter(p) == idents.drop_last().filter(p).push(idents.last()));
            assert(idents.filter(p).drop_last() =~= idents.drop_last().filter(p));
            assert(idents.filter(p).last() == idents.last());
            assert(idents.filter(p).len() > 0);
            assert(concat_identity_levels(idents.filter(p)) == concat_identity_levels(
                idents.drop_last().filter(p),
            ) + mapped_levels_spec(idents.last().tcb_levels@));
        } else {
            assert(idents.filter(p) == idents.drop_last().filter(p));
            assert(matching_levels_spec(idents, exp) =~= matching_levels_spec(
                idents.drop_last(),
                exp,
            ));
        }
    }
}

/// Identity resolution determinism: two collateral lists that agree on
/// their matching identities, in order, resolve to the same level list,
/// whatever other identities they hold and in whatever order.
pub proof fn lemma_identity_resolution_determinism(
    idents1: Seq<TdxModuleIdentityRaw>,
    idents2: Seq<TdxModuleIdentityRaw>,
    exp: Seq<char>,
)
    requires
        idents1.filter(|i: TdxModuleIdentityRaw| i.id@ == exp) == idents2.filter(
            |i: TdxModuleIdentityRaw| i.id@ == exp,
        ),
    ensures
        matching_levels_spec(idents1, exp) == matching_levels_spec(idents2, exp),
{
    lemma_matching_levels_filtered(idents1, exp);
    lemma_matching_levels_filtered(idents2, exp);
}

} // verus!
