//! Per-record composition planning.
//!
//! One record is rendered by painting the template at the origin of a
//! canvas of the template's native size and then painting one right-
//! aligned text block per column. This module computes that composition
//! exactly: which fields are drawn, with which shaped text, where and how
//! wide. Field values are paired with the scaled regions in column order;
//! a zero-sized region means the field is omitted, which is no error.
//! Decoding, painting and encoding pixels are the surrounding program's
//! work and take the finished plan as input.

use vstd::prelude::*;
use vstd::string::StringExecFns;

use crate::scale::ScaledRegion;
use crate::shape::fix_text;
use crate::shape::spec_fix_text;

verus! {

/// One text block to paint: shaped text, the top-left point of its box in
/// native pixels, and the box width the text wraps in.
#[derive(Clone, Debug)]
pub struct DrawOp {
    pub text: String,
    pub x: u64,
    pub y: u64,
    pub width: u64,
}

/// The mathematical value of a [`DrawOp`].
#[verifier::ext_equal]
pub struct DrawOpModel {
    pub text: Seq<char>,
    pub x: int,
    pub y: int,
    pub width: int,
}

impl View for DrawOp {
    type V = DrawOpModel;

    open spec fn view(&self) -> DrawOpModel {
        DrawOpModel {
            text: self.text@,
            x: self.x as int,
            y: self.y as int,
            width: self.width as int,
        }
    }
}

/// The draw operation of one field at one region.
pub open spec fn spec_op(field: Seq<char>, reg: ScaledRegion) -> DrawOpModel {
    DrawOpModel {
        text: spec_fix_text(field),
        x: reg.x as int,
        y: reg.y as int,
        width: reg.width as int,
    }
}

/// How many field-region pairs there are: fields and regions are paired
/// positionally, and the shorter list bounds the pairing.
pub open spec fn spec_pair_count(fields: Seq<Seq<char>>, regs: Seq<ScaledRegion>) -> int {
    if fields.len() <= regs.len() {
        fields.len() as int
    } else {
        regs.len() as int
    }
}

/// The draw operations for the pairs from position `i` on, in column
/// order, with the zero-sized regions omitted.
pub open spec fn spec_plan_from(
    fields: Seq<Seq<char>>,
    regs: Seq<ScaledRegion>,
    i: int,
) -> Seq<DrawOpModel>
    decreases spec_pair_count(fields, regs) - i,
{
    if i < 0 || i >= spec_pair_count(fields, regs) {
        Seq::empty()
    } else if regs[i].is_skip() {
        spec_plan_from(fields, regs, i + 1)
    } else {
        seq![spec_op(fields[i], regs[i])] + spec_plan_from(fields, regs, i + 1)
    }
}

/// The whole composition of one record: every drawn field, in column
/// order.
pub open spec fn spec_plan(fields: Seq<Seq<char>>, regs: Seq<ScaledRegion>) -> Seq<DrawOpModel> {
    spec_plan_from(fields, regs, 0)
}

/// Computes the composition of one record: pairs the field values with
/// the scaled regions in column order, omits the zero-sized regions, and
/// shapes each drawn field's text.
pub fn render_plan(fields: &Vec<String>, regs: &Vec<ScaledRegion>) -> (ops: Vec<DrawOp>)
    ensures
        ops@.map_values(|op: DrawOp| op@) == spec_plan(fields.deep_view(), regs@),
{
    let ghost fv = fields.deep_view();
    let ghost rv = regs@;
    let mut ops: Vec<DrawOp> = Vec::new();
    let n = if fields.len() <= regs.len() {
        fields.len()
    } else {
        regs.len()
    };
    let mut i: usize = 0;
    while i < n
        invariant
            fv == fields.deep_view(),
            rv == regs@,
            n == spec_pair_count(fv, rv),
            n <= fields@.len(),
            n <= regs@.len(),
            i <= n,
            ops@.map_values(|op: DrawOp| op@) + spec_plan_from(fv, rv, i as int) == spec_plan(
                fv,
                rv,
            ),
        decreases n - i,
    {
        let ghost prev = ops@.map_values(|op: DrawOp| op@);
        let reg = regs[i];
        if !reg.skip() {
            let op = DrawOp {
                text: fix_text(fields[i].as_str()),
                x: reg.x,
                y: reg.y,
                width: reg.width,
            };
            proof {
                assert(op@ =~= spec_op(fv[i as int], rv[i as int]));
            }
            ops.push(op);
            proof {
                assert(ops@.map_values(|op: DrawOp| op@) =~= prev + seq![
                    spec_op(fv[i as int], rv[i as int]),
                ]);
                assert(prev + seq![spec_op(fv[i as int], rv[i as int])] + spec_plan_from(
                    fv,
                    rv,
                    i + 1,
                ) =~= prev + spec_plan_from(fv, rv, i as int));
            }
        }
        i = i + 1;
    }
    proof {
        assert(spec_plan_from(fv, rv, n as int) =~= Seq::<DrawOpModel>::empty());
        assert(ops@.map_values(|op: DrawOp| op@) + Seq::<DrawOpModel>::empty() =~= ops@.map_values(
            |op: DrawOp| op@,
        ));
    }
    ops
}

/// One self-contained render job: the output file name, the composition
/// to paint over the shared template, and the configured font size. Jobs
/// share no mutable state, so workers need no locking.
#[derive(Clone, Debug)]
pub struct RenderJob {
    pub filename: String,
    pub ops: Vec<DrawOp>,
    pub font_size: u32,
}

/// The mathematical value of a [`RenderJob`].
#[verifier::ext_equal]
pub struct RenderJobModel {
    pub filename: Seq<char>,
    pub ops: Seq<DrawOpModel>,
    pub font_size: int,
}

impl View for RenderJob {
    type V = RenderJobModel;

    open spec fn view(&self) -> RenderJobModel {
        RenderJobModel {
            filename: self.filename@,
            ops: self.ops@.map_values(|op: DrawOp| op@),
            font_size: self.font_size as int,
        }
    }
}

/// The job that renders one record: its composition under the given
/// name and font size.
pub open spec fn spec_job(
    fields: Seq<Seq<char>>,
    regs: Seq<ScaledRegion>,
    filename: Seq<char>,
    font_size: int,
) -> RenderJobModel {
    RenderJobModel { filename, ops: spec_plan(fields, regs), font_size }
}

/// Builds the render job of one record: the composition of its fields
/// over the shared regions, to be painted on a decoded copy of the
/// template and written out under `filename`.
pub fn generate_certificate(
    record: &Vec<String>,
    regions: &Vec<ScaledRegion>,
    filename: &str,
    font_size: u32,
) -> (job: RenderJob)
    ensures
        job@ == spec_job(record.deep_view(), regions@, filename@, font_size as int),
{
    let job = RenderJob {
        filename: String::from_str(filename),
        ops: render_plan(record, regions),
        font_size,
    };
    proof {
        assert(job@ =~= spec_job(record.deep_view(), regions@, filename@, font_size as int));
    }
    job
}

/// A record whose regions are all unset is composed of nothing: no field
/// is painted, and no error arises — the plan is simply empty.
pub proof fn lemma_all_unset_plan_empty(fields: Seq<Seq<char>>, regs: Seq<ScaledRegion>)
    requires
        forall|i: int| 0 <= i < regs.len() ==> regs[i].is_skip(),
    ensures
        spec_plan(fields, regs) == Seq::<DrawOpModel>::empty(),
{
    lemma_plan_from_all_skip(fields, regs, 0);
}

/// `op` is the operation of some drawn — not zero-sized — pair at or
/// after position `lo`.
pub open spec fn spec_op_has_drawn_source(
    fields: Seq<Seq<char>>,
    regs: Seq<ScaledRegion>,
    lo: int,
    op: DrawOpModel,
) -> bool {
    exists|k: int|
        lo <= k < spec_pair_count(fields, regs) && !(#[trigger] regs[k]).is_skip() && op == spec_op(
            fields[k],
            regs[k],
        )
}

/// No paint comes from a skipped region: every operation of a plan is
/// the operation of some pair whose region is drawn — not zero-sized —
/// whatever the rest of the region list holds.
pub proof fn lemma_plan_ops_from_drawn_regions(fields: Seq<Seq<char>>, regs: Seq<ScaledRegion>)
    ensures
        forall|j: int|
            0 <= j < spec_plan(fields, regs).len() ==> spec_op_has_drawn_source(
                fields,
                regs,
                0,
                #[trigger] spec_plan(fields, regs)[j],
            ),
{
    lemma_plan_from_ops_sources(fields, regs, 0);
}

/// Helper for [`lemma_plan_ops_from_drawn_regions`]: the same, from any
/// position on.
proof fn lemma_plan_from_ops_sources(fields: Seq<Seq<char>>, regs: Seq<ScaledRegion>, i: int)
    ensures
        forall|j: int|
            0 <= j < spec_plan_from(fields, regs, i).len() ==> spec_op_has_drawn_source(
                fields,
                regs,
                i,
                #[trigger] spec_plan_from(fields, regs, i)[j],
            ),
    decreases spec_pair_count(fields, regs) - i,
{
    if i < 0 || i >= spec_pair_count(fields, regs) {
    } else if regs[i].is_skip() {
        lemma_plan_from_ops_sources(fields, regs, i + 1);
        assert forall|j: int| 0 <= j < spec_plan_from(fields, regs, i).len() implies
            spec_op_has_drawn_source(fields, regs, i, spec_plan_from(fields, regs, i)[j]) by {
            assert(spec_op_has_drawn_source(fields, regs, i + 1, spec_plan_from(fields, regs, i + 1)[j]));
        }
    } else {
        lemma_plan_from_ops_sources(fields, regs, i + 1);
        let rest = spec_plan_from(fields, regs, i + 1);
        assert forall|j: int| 0 <= j < spec_plan_from(fields, regs, i).len() implies
            spec_op_has_drawn_source(fields, regs, i, spec_plan_from(fields, regs, i)[j]) by {
            if j == 0 {
                assert(spec_plan_from(fields, regs, i)[0] == spec_op(fields[i], regs[i]));
                assert(!regs[i].is_skip());
            } else {
                assert(spec_plan_from(fields, regs, i)[j] == rest[j - 1]);
                assert(spec_op_has_drawn_source(fields, regs, i + 1, rest[j - 1]));
            }
        }
    }
}

/// Helper for [`lemma_all_unset_plan_empty`]: from any position on, a
/// region list of only zero-sized regions contributes no operation.
proof fn lemma_plan_from_all_skip(fields: Seq<Seq<char>>, regs: Seq<ScaledRegion>, i: int)
    requires
        forall|j: int| 0 <= j < regs.len() ==> regs[j].is_skip(),
    ensures
        spec_plan_from(fields, regs, i) == Seq::<DrawOpModel>::empty(),
    decreases spec_pair_count(fields, regs) - i,
{
    if i < 0 || i >= spec_pair_count(fields, regs) {
    } else {
        lemma_plan_from_all_skip(fields, regs, i + 1);
    }
}

} // verus!
