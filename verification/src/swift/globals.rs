//! The Swift globals that a service's schema source defines: each method
//! gets two descriptors and four lowered programs, named after its
//! `{service}_{method}` prefix, and no name is defined twice while the
//! methods' prefixes differ.

use super::service::{
    all_descriptor_globals, all_program_globals, descriptor_globals, program_globals, program_line, service_text,
    wire_error_types_text,
};
use super::{global_prefix, MethodDescriptor, ServiceDescriptor};
use crate::text::lower_camel_case;
use vstd::prelude::*;

verus! {

/// The ending of the `j`-th global of a method: its arguments' and its
/// response's descriptor, then the arguments' encoder and decoder and the
/// response's encoder and decoder.
pub open spec fn global_suffix(j: int) -> Seq<char> {
    if j == 0 {
        "_ArgsDescriptor"@
    } else if j == 1 {
        "_ResponseDescriptor"@
    } else if j == 2 {
        "_"@ + "ArgsEncodeProgram"@
    } else if j == 3 {
        "_"@ + "ArgsDecodeProgram"@
    } else if j == 4 {
        "_"@ + "ResponseEncodeProgram"@
    } else {
        "_"@ + "ResponseDecodeProgram"@
    }
}

/// How far from the end two different global endings first differ.
spec fn suffix_split(j1: int, j2: int) -> int {
    if j1 < 2 && j2 < 2 {
        10
    } else if j1 < 2 || j2 < 2 {
        0
    } else if (j1 % 2) != (j2 % 2) {
        12
    } else {
        13
    }
}

/// A global name ends in exactly one way: a prefix and an ending give the
/// same name as another prefix and ending only when both agree.
pub proof fn lemma_global_name_unique(p: Seq<char>, q: Seq<char>, j1: int, j2: int)
    requires
        0 <= j1 < 6,
        0 <= j2 < 6,
        p + global_suffix(j1) == q + global_suffix(j2),
    ensures
        j1 == j2,
        p == q,
{
    reveal_strlit("_ArgsDescriptor");
    reveal_strlit("_ResponseDescriptor");
    reveal_strlit("_");
    reveal_strlit("ArgsEncodeProgram");
    reveal_strlit("ArgsDecodeProgram");
    reveal_strlit("ResponseEncodeProgram");
    reveal_strlit("ResponseDecodeProgram");
    let s = global_suffix(j1);
    let t = global_suffix(j2);
    let x = p + s;
    if j1 != j2 {
        let k = suffix_split(j1, j2);
        assert(x[x.len() - 1 - k] == s[s.len() - 1 - k]);
        assert(x[x.len() - 1 - k] == t[t.len() - 1 - k]);
        assert(false);
    } else {
        assert(p =~= x.subrange(0, p.len() as int));
        assert(q =~= x.subrange(0, q.len() as int));
    }
}

/// A global's definition: its name, its Swift type and its value.
pub type GlobalDef = (Seq<char>, Seq<char>, Seq<char>);

/// The line that defines a global.
pub open spec fn global_def_text(d: GlobalDef) -> Seq<char> {
    "nonisolated(unsafe) let "@ + d.0 + ": "@ + d.1 + " = "@ + d.2 + "\n"@
}

/// The lines that define the globals, in order.
pub open spec fn defs_text(ds: Seq<GlobalDef>) -> Seq<char>
    decreases ds.len(),
{
    if ds.len() == 0 {
        Seq::empty()
    } else {
        defs_text(ds.drop_last()) + global_def_text(ds.last())
    }
}

/// The names the definitions define, in order.
pub open spec fn def_names(ds: Seq<GlobalDef>) -> Seq<Seq<char>> {
    ds.map_values(|d: GlobalDef| d.0)
}

/// The prefix of a method's globals in a service whose lowerCamelCase name
/// is `name`.
pub open spec fn method_prefix(name: Seq<char>, m: MethodDescriptor) -> Seq<char> {
    name + "_"@ + lower_camel_case(m.method_name@)
}

/// A method's two descriptors.
pub open spec fn method_descriptor_defs(name: Seq<char>, m: MethodDescriptor) -> Seq<GlobalDef> {
    let p = method_prefix(name, m);
    seq![
        (p + global_suffix(0), "Descriptor"@, m.args_descriptor@),
        (p + global_suffix(1), "Descriptor"@, m.response_descriptor@),
    ]
}

/// A lowered program: `lower` applied to the descriptor ending in
/// `global_suffix(desc)` and the service's registry.
pub open spec fn program_value(name: Seq<char>, p: Seq<char>, lower: Seq<char>, desc: int) -> Seq<char> {
    "try! "@ + lower + "("@ + p + global_suffix(desc) + ", "@ + name + "Registry)"@
}

/// A method's four lowered programs.
pub open spec fn method_program_defs(name: Seq<char>, m: MethodDescriptor) -> Seq<GlobalDef> {
    let p = method_prefix(name, m);
    seq![
        (p + global_suffix(2), "MemProgram"@, program_value(name, p, "lowerTyped"@, 0)),
        (p + global_suffix(3), "MemProgram"@, program_value(name, p, "lowerDecode"@, 0)),
        (p + global_suffix(4), "MemProgram"@, program_value(name, p, "lowerTyped"@, 1)),
        (p + global_suffix(5), "MemProgram"@, program_value(name, p, "lowerDecode"@, 1)),
    ]
}

/// The definitions `f` gives for each method, in method order.
pub open spec fn each_method_defs(
    ms: Seq<MethodDescriptor>,
    f: spec_fn(MethodDescriptor) -> Seq<GlobalDef>,
) -> Seq<GlobalDef>
    decreases ms.len(),
{
    if ms.len() == 0 {
        Seq::empty()
    } else {
        each_method_defs(ms.drop_last(), f) + f(ms.last())
    }
}

/// The descriptors of all methods, in method order.
pub open spec fn descriptor_defs(name: Seq<char>, ms: Seq<MethodDescriptor>) -> Seq<GlobalDef> {
    each_method_defs(ms, |m: MethodDescriptor| method_descriptor_defs(name, m))
}

/// The lowered programs of all methods, in method order.
pub open spec fn program_defs(name: Seq<char>, ms: Seq<MethodDescriptor>) -> Seq<GlobalDef> {
    each_method_defs(ms, |m: MethodDescriptor| method_program_defs(name, m))
}

/// The `j`-th global of the method `method_name` of the service
/// `service_name` (see [`global_suffix`]).
pub open spec fn method_global(service_name: Seq<char>, method_name: Seq<char>, j: int) -> Seq<char> {
    global_prefix(service_name, method_name) + global_suffix(j)
}

/// The `j`-th global of method `m`.
pub open spec fn global_name(name: Seq<char>, m: MethodDescriptor, j: int) -> Seq<char> {
    method_prefix(name, m) + global_suffix(j)
}

/// Every per-method global a service's schema source defines: the
/// descriptors, then the lowered programs.
pub open spec fn service_defs(s: ServiceDescriptor) -> Seq<GlobalDef> {
    let name = lower_camel_case(s.service_name@);
    descriptor_defs(name, s.methods@) + program_defs(name, s.methods@)
}

proof fn lemma_defs_text_append(a: Seq<GlobalDef>, b: Seq<GlobalDef>)
    ensures
        defs_text(a + b) == defs_text(a) + defs_text(b),
    decreases b.len(),
{
    if b.len() == 0 {
        assert(a + b =~= a);
        assert(defs_text(a) + defs_text(b) =~= defs_text(a));
    } else {
        assert((a + b).drop_last() =~= a + b.drop_last());
        assert((a + b).last() == b.last());
        lemma_defs_text_append(a, b.drop_last());
        assert(defs_text(a + b) =~= defs_text(a) + defs_text(b));
    }
}

proof fn lemma_method_descriptor_text(name: Seq<char>, m: MethodDescriptor)
    ensures
        descriptor_globals(name, m) == defs_text(method_descriptor_defs(name, m)),
{
    reveal_strlit("_ArgsDescriptor: Descriptor = ");
    reveal_strlit("_ResponseDescriptor: Descriptor = ");
    reveal_strlit("_ArgsDescriptor");
    reveal_strlit("_ResponseDescriptor");
    reveal_strlit(": ");
    reveal_strlit(" = ");
    reveal_strlit("Descriptor");
    let ds = method_descriptor_defs(name, m);
    assert(ds.drop_last() =~= seq![ds[0]]);
    assert("_ArgsDescriptor: Descriptor = "@ =~= "_ArgsDescriptor"@ + ": "@ + "Descriptor"@ + " = "@);
    assert("_ResponseDescriptor: Descriptor = "@ =~= "_ResponseDescriptor"@ + ": "@ + "Descriptor"@ + " = "@);
    assert(defs_text(ds) == defs_text(seq![ds[0]]) + global_def_text(ds[1]));
    let one = seq![ds[0]];
    assert(one.drop_last() =~= Seq::<GlobalDef>::empty());
    assert(one.last() == ds[0]);
    assert(defs_text(Seq::<GlobalDef>::empty()) == Seq::<char>::empty());
    assert(defs_text(one) == defs_text(one.drop_last()) + global_def_text(ds[0]));
    assert(defs_text(one) =~= global_def_text(ds[0]));
    let p = method_prefix(name, m);
    assert(global_def_text(ds[0]) =~= "nonisolated(unsafe) let "@ + name + "_"@ + lower_camel_case(m.method_name@)
        + "_ArgsDescriptor: Descriptor = "@ + m.args_descriptor@ + "\n"@);
    assert(global_def_text(ds[1]) =~= "nonisolated(unsafe) let "@ + name + "_"@ + lower_camel_case(m.method_name@)
        + "_ResponseDescriptor: Descriptor = "@ + m.response_descriptor@ + "\n"@);
    assert(descriptor_globals(name, m) =~= defs_text(ds));
}

proof fn lemma_defs_text_push(ds: Seq<GlobalDef>, d: GlobalDef)
    ensures
        defs_text(ds.push(d)) == defs_text(ds) + global_def_text(d),
{
    assert(ds.push(d).drop_last() =~= ds);
    assert(ds.push(d).last() == d);
}

proof fn lemma_program_line(name: Seq<char>, m: MethodDescriptor, d: GlobalDef, suffix: Seq<char>, lower: Seq<char>, desc: Seq<char>, j: int, dj: int)
    requires
        2 <= j < 6,
        0 <= dj < 2,
        global_suffix(j) == "_"@ + suffix,
        global_suffix(dj) == desc,
        d == (method_prefix(name, m) + global_suffix(j), "MemProgram"@, program_value(name, method_prefix(name, m), lower, dj)),
    ensures
        global_def_text(d) == program_line(name, lower_camel_case(m.method_name@), suffix, lower, desc),
{
    reveal_strlit(": MemProgram = try! ");
    reveal_strlit(": ");
    reveal_strlit("MemProgram");
    reveal_strlit(" = ");
    reveal_strlit("try! ");
    reveal_strlit("Registry)\n");
    reveal_strlit("Registry)");
    reveal_strlit("\n");
    assert(": MemProgram = try! "@ =~= ": "@ + "MemProgram"@ + " = "@ + "try! "@);
    assert("Registry)\n"@ =~= "Registry)"@ + "\n"@);
    assert(global_def_text(d) =~= program_line(name, lower_camel_case(m.method_name@), suffix, lower, desc));
}

proof fn lemma_method_program_text(name: Seq<char>, m: MethodDescriptor)
    ensures
        program_globals(name, m) == defs_text(method_program_defs(name, m)),
{
    let ds = method_program_defs(name, m);
    let mname = lower_camel_case(m.method_name@);
    lemma_program_line(name, m, ds[0], "ArgsEncodeProgram"@, "lowerTyped"@, "_ArgsDescriptor"@, 2, 0);
    lemma_program_line(name, m, ds[1], "ArgsDecodeProgram"@, "lowerDecode"@, "_ArgsDescriptor"@, 3, 0);
    lemma_program_line(name, m, ds[2], "ResponseEncodeProgram"@, "lowerTyped"@, "_ResponseDescriptor"@, 4, 1);
    lemma_program_line(name, m, ds[3], "ResponseDecodeProgram"@, "lowerDecode"@, "_ResponseDescriptor"@, 5, 1);
    let e = Seq::<GlobalDef>::empty();
    assert(defs_text(e) == Seq::<char>::empty());
    lemma_defs_text_push(e, ds[0]);
    lemma_defs_text_push(e.push(ds[0]), ds[1]);
    lemma_defs_text_push(e.push(ds[0]).push(ds[1]), ds[2]);
    lemma_defs_text_push(e.push(ds[0]).push(ds[1]).push(ds[2]), ds[3]);
    assert(ds =~= e.push(ds[0]).push(ds[1]).push(ds[2]).push(ds[3]));
    assert(program_globals(name, m) =~= defs_text(ds));
}

proof fn lemma_all_texts(name: Seq<char>, ms: Seq<MethodDescriptor>)
    ensures
        all_descriptor_globals(name, ms) == defs_text(descriptor_defs(name, ms)),
        all_program_globals(name, ms) == defs_text(program_defs(name, ms)),
    decreases ms.len(),
{
    if ms.len() > 0 {
        lemma_all_texts(name, ms.drop_last());
        lemma_method_descriptor_text(name, ms.last());
        lemma_method_program_text(name, ms.last());
        lemma_defs_text_append(descriptor_defs(name, ms.drop_last()), method_descriptor_defs(name, ms.last()));
        lemma_defs_text_append(program_defs(name, ms.drop_last()), method_program_defs(name, ms.last()));
    } else {
        assert(defs_text(Seq::<GlobalDef>::empty()) == Seq::<char>::empty());
    }
}

/// Whether `x` is one of the globals `lo` up to `lo + n` of some method.
pub open spec fn is_method_global(name: Seq<char>, ms: Seq<MethodDescriptor>, lo: int, n: int, x: Seq<char>) -> bool {
    exists|i: int, j: int| 0 <= i < ms.len() && lo <= j < lo + n && x == #[trigger] global_name(name, ms[i], j)
}

/// Where the names of `each_method_defs` come from, when `f` gives each
/// method its globals `lo` up to `lo + n`.
proof fn lemma_each_method_names(
    name: Seq<char>,
    ms: Seq<MethodDescriptor>,
    f: spec_fn(MethodDescriptor) -> Seq<GlobalDef>,
    lo: int,
    n: int,
)
    requires
        0 <= lo,
        0 < n,
        lo + n <= 6,
        forall|m: MethodDescriptor| (#[trigger] f(m)).len() == n,
        forall|m: MethodDescriptor, k: int| 0 <= k < n ==> (#[trigger] f(m)[k]).0 == global_name(name, m, lo + k),
    ensures
        forall|i: int, j: int|
            0 <= i < ms.len() && lo <= j < lo + n ==> def_names(each_method_defs(ms, f)).contains(
                #[trigger] global_name(name, ms[i], j),
            ),
        forall|k: int|
            0 <= k < def_names(each_method_defs(ms, f)).len() ==> is_method_global(
                name,
                ms,
                lo,
                n,
                #[trigger] def_names(each_method_defs(ms, f))[k],
            ),
        (forall|i1: int, i2: int|
            0 <= i1 < i2 < ms.len() ==> method_prefix(name, ms[i1]) != method_prefix(name, ms[i2]))
            ==> def_names(each_method_defs(ms, f)).no_duplicates(),
    decreases ms.len(),
{
    if ms.len() == 0 {
        assert(def_names(each_method_defs(ms, f)) =~= Seq::<Seq<char>>::empty());
    } else {
        let prev = ms.drop_last();
        let last = ms.last();
        lemma_each_method_names(name, prev, f, lo, n);
        let a = def_names(each_method_defs(prev, f));
        let b = def_names(f(last));
        let all = def_names(each_method_defs(ms, f));
        assert(all =~= a + b);
        assert forall|i: int, j: int| 0 <= i < ms.len() && lo <= j < lo + n implies all.contains(
            #[trigger] global_name(name, ms[i], j),
        ) by {
            if i < ms.len() - 1 {
                assert(prev[i] == ms[i]);
                assert(a.contains(global_name(name, prev[i], j)));
                let w = choose|w: int| 0 <= w < a.len() && a[w] == global_name(name, prev[i], j);
                assert(all[w] == a[w]);
            } else {
                assert(f(last)[j - lo].0 == global_name(name, last, j));
                assert(all[a.len() + j - lo] == b[j - lo]);
            }
        }
        assert forall|k: int| 0 <= k < all.len() implies is_method_global(name, ms, lo, n, #[trigger] all[k]) by {
            if k < a.len() {
                assert(all[k] == a[k]);
                assert(is_method_global(name, prev, lo, n, a[k]));
                let (i, j) = choose|i: int, j: int|
                    0 <= i < prev.len() && lo <= j < lo + n && a[k] == #[trigger] global_name(name, prev[i], j);
                assert(prev[i] == ms[i]);
                assert(all[k] == global_name(name, ms[i], j));
            } else {
                let t = k - a.len();
                assert(all[k] == b[t]);
                assert(f(last)[t].0 == global_name(name, last, lo + t));
                assert(all[k] == global_name(name, ms[ms.len() - 1], lo + t));
            }
        }
        if forall|i1: int, i2: int|
            0 <= i1 < i2 < ms.len() ==> method_prefix(name, ms[i1]) != method_prefix(name, ms[i2]) {
            assert forall|i1: int, i2: int|
                0 <= i1 < i2 < prev.len() implies method_prefix(name, prev[i1]) != method_prefix(name, prev[i2]) by {
                assert(prev[i1] == ms[i1] && prev[i2] == ms[i2]);
            }
            assert forall|k1: int, k2: int| 0 <= k1 < all.len() && 0 <= k2 < all.len() && k1 != k2 implies all[k1]
                != all[k2] by {
                if k1 < a.len() && k2 < a.len() {
                    assert(all[k1] == a[k1] && all[k2] == a[k2]);
                } else if k1 >= a.len() && k2 >= a.len() {
                    let t1 = k1 - a.len();
                    let t2 = k2 - a.len();
                    assert(all[k1] == b[t1] && all[k2] == b[t2]);
                    assert(f(last)[t1].0 == global_name(name, last, lo + t1));
                    assert(f(last)[t2].0 == global_name(name, last, lo + t2));
                    if all[k1] == all[k2] {
                        lemma_global_name_unique(method_prefix(name, last), method_prefix(name, last), lo + t1, lo + t2);
                    }
                } else {
                    let (kp, kl) = if k1 < a.len() { (k1, k2) } else { (k2, k1) };
                    let t = kl - a.len();
                    assert(all[kl] == b[t]);
                    assert(f(last)[t].0 == global_name(name, last, lo + t));
                    assert(all[kp] == a[kp]);
                    assert(is_method_global(name, prev, lo, n, a[kp]));
                    let (i, j) = choose|i: int, j: int|
                        0 <= i < prev.len() && lo <= j < lo + n && a[kp] == #[trigger] global_name(name, prev[i], j);
                    assert(prev[i] == ms[i]);
                    if all[k1] == all[k2] {
                        lemma_global_name_unique(method_prefix(name, ms[i]), method_prefix(name, last), j, lo + t);
                        assert(method_prefix(name, ms[i]) != method_prefix(name, ms[ms.len() - 1]));
                    }
                }
            }
        }
    }
}

proof fn lemma_service_names(name: Seq<char>, ms: Seq<MethodDescriptor>)
    ensures
        forall|i: int, j: int|
            0 <= i < ms.len() && 0 <= j < 6 ==> def_names(descriptor_defs(name, ms) + program_defs(name, ms)).contains(
                #[trigger] global_name(name, ms[i], j),
            ),
        forall|k: int|
            0 <= k < def_names(descriptor_defs(name, ms) + program_defs(name, ms)).len() ==> is_method_global(
                name,
                ms,
                0,
                6,
                #[trigger] def_names(descriptor_defs(name, ms) + program_defs(name, ms))[k],
            ),
        (forall|i1: int, i2: int| 0 <= i1 < i2 < ms.len() ==> method_prefix(name, ms[i1]) != method_prefix(name, ms[i2]))
            ==> def_names(descriptor_defs(name, ms) + program_defs(name, ms)).no_duplicates(),
{
    let fd = |m: MethodDescriptor| method_descriptor_defs(name, m);
    let fp = |m: MethodDescriptor| method_program_defs(name, m);
    assert forall|m: MethodDescriptor, k: int| 0 <= k < 2 implies (#[trigger] fd(m)[k]).0 == global_name(name, m, k) by {
        if k == 0 {} else {}
    }
    assert forall|m: MethodDescriptor, k: int| 0 <= k < 4 implies (#[trigger] fp(m)[k]).0 == global_name(name, m, 2 + k) by {
        if k == 0 {} else if k == 1 {} else if k == 2 {} else {}
    }
    lemma_each_method_names(name, ms, fd, 0, 2);
    lemma_each_method_names(name, ms, fp, 2, 4);
    let dn = def_names(descriptor_defs(name, ms));
    let pn = def_names(program_defs(name, ms));
    let all = def_names(descriptor_defs(name, ms) + program_defs(name, ms));
    assert(all =~= dn + pn);
    assert forall|i: int, j: int| 0 <= i < ms.len() && 0 <= j < 6 implies all.contains(
        #[trigger] global_name(name, ms[i], j),
    ) by {
        if j < 2 {
            assert(dn.contains(global_name(name, ms[i], j)));
            let w = choose|w: int| 0 <= w < dn.len() && dn[w] == global_name(name, ms[i], j);
            assert(all[w] == dn[w]);
        } else {
            assert(pn.contains(global_name(name, ms[i], j)));
            let w = choose|w: int| 0 <= w < pn.len() && pn[w] == global_name(name, ms[i], j);
            assert(all[dn.len() + w] == pn[w]);
        }
    }
    assert forall|k: int| 0 <= k < all.len() implies is_method_global(name, ms, 0, 6, #[trigger] all[k]) by {
        if k < dn.len() {
            assert(all[k] == dn[k]);
            assert(is_method_global(name, ms, 0, 2, dn[k]));
            let (i, j) = choose|i: int, j: int|
                0 <= i < ms.len() && 0 <= j < 2 && dn[k] == #[trigger] global_name(name, ms[i], j);
            assert(all[k] == global_name(name, ms[i], j));
        } else {
            assert(all[k] == pn[k - dn.len()]);
            assert(is_method_global(name, ms, 2, 4, pn[k - dn.len()]));
            let (i, j) = choose|i: int, j: int|
                0 <= i < ms.len() && 2 <= j < 6 && pn[k - dn.len()] == #[trigger] global_name(name, ms[i], j);
            assert(all[k] == global_name(name, ms[i], j));
        }
    }
    if forall|i1: int, i2: int| 0 <= i1 < i2 < ms.len() ==> method_prefix(name, ms[i1]) != method_prefix(name, ms[i2]) {
        assert forall|k1: int, k2: int| 0 <= k1 < all.len() && 0 <= k2 < all.len() && k1 != k2 implies all[k1]
            != all[k2] by {
            if k1 < dn.len() && k2 < dn.len() {
                assert(all[k1] == dn[k1] && all[k2] == dn[k2]);
            } else if k1 >= dn.len() && k2 >= dn.len() {
                assert(all[k1] == pn[k1 - dn.len()] && all[k2] == pn[k2 - dn.len()]);
            } else {
                let (kd, kp) = if k1 < dn.len() {
                    (k1, k2)
                } else {
                    (k2, k1)
                };
                assert(all[kd] == dn[kd]);
                assert(all[kp] == pn[kp - dn.len()]);
                assert(is_method_global(name, ms, 0, 2, dn[kd]));
                assert(is_method_global(name, ms, 2, 4, pn[kp - dn.len()]));
                let (i1, j1) = choose|i: int, j: int|
                    0 <= i < ms.len() && 0 <= j < 2 && dn[kd] == #[trigger] global_name(name, ms[i], j);
                let (i2, j2) = choose|i: int, j: int|
                    0 <= i < ms.len() && 2 <= j < 6 && pn[kp - dn.len()] == #[trigger] global_name(name, ms[i], j);
                if all[k1] == all[k2] {
                    lemma_global_name_unique(method_prefix(name, ms[i1]), method_prefix(name, ms[i2]), j1, j2);
                }
            }
        }
    }
}

/// Law: a service's schema source starts with the wire error types, and its
/// descriptor and program sections define exactly the globals of
/// [`service_defs`]. For each method, with `p` its `{service}_{method}`
/// prefix, the globals `p_ArgsDescriptor`, `p_ResponseDescriptor`,
/// `p_ArgsEncodeProgram`, `p_ArgsDecodeProgram`, `p_ResponseEncodeProgram`
/// and `p_ResponseDecodeProgram` are defined; every global defined there is
/// one of these; and while no two methods share a prefix, none is defined
/// twice.
pub proof fn law_service_globals_defined_once(s: ServiceDescriptor)
    ensures
        wire_error_types_text().is_prefix_of(service_text(s)),
        all_descriptor_globals(lower_camel_case(s.service_name@), s.methods@) == defs_text(
            descriptor_defs(lower_camel_case(s.service_name@), s.methods@),
        ),
        all_program_globals(lower_camel_case(s.service_name@), s.methods@) == defs_text(
            program_defs(lower_camel_case(s.service_name@), s.methods@),
        ),
        forall|i: int, j: int|
            0 <= i < s.methods@.len() && 0 <= j < 6 ==> def_names(service_defs(s)).contains(
                #[trigger] method_global(s.service_name@, s.methods@[i].method_name@, j),
            ),
        forall|x: Seq<char>|
            def_names(service_defs(s)).contains(x) ==> exists|i: int, j: int|
                0 <= i < s.methods@.len() && 0 <= j < 6 && x == #[trigger] method_global(
                    s.service_name@,
                    s.methods@[i].method_name@,
                    j,
                ),
        (forall|i1: int, i2: int|
            0 <= i1 < i2 < s.methods@.len() ==> global_prefix(s.service_name@, s.methods@[i1].method_name@)
                != global_prefix(s.service_name@, s.methods@[i2].method_name@))
            ==> def_names(service_defs(s)).no_duplicates(),
{
    let name = lower_camel_case(s.service_name@);
    let ms = s.methods@;
    assert(service_text(s).subrange(0, wire_error_types_text().len() as int) =~= wire_error_types_text());
    lemma_all_texts(name, ms);
    lemma_service_names(name, ms);
    let all = def_names(service_defs(s));
    assert(all == def_names(descriptor_defs(name, ms) + program_defs(name, ms)));
    assert forall|i: int, j: int| 0 <= i < ms.len() && 0 <= j < 6 implies all.contains(
        #[trigger] method_global(s.service_name@, ms[i].method_name@, j),
    ) by {
        assert(method_global(s.service_name@, ms[i].method_name@, j) == global_name(name, ms[i], j));
    }
    assert forall|x: Seq<char>| all.contains(x) implies exists|i: int, j: int|
        0 <= i < ms.len() && 0 <= j < 6 && x == #[trigger] method_global(s.service_name@, ms[i].method_name@, j) by {
        let w = choose|w: int| 0 <= w < all.len() && all[w] == x;
        assert(is_method_global(name, ms, 0, 6, all[w]));
        let (i, j) = choose|i: int, j: int| 0 <= i < ms.len() && 0 <= j < 6 && all[w] == #[trigger] global_name(name, ms[i], j);
        assert(x == method_global(s.service_name@, ms[i].method_name@, j));
    }
    if forall|i1: int, i2: int|
        0 <= i1 < i2 < ms.len() ==> global_prefix(s.service_name@, ms[i1].method_name@) != global_prefix(
            s.service_name@,
            ms[i2].method_name@,
        ) {
        assert forall|i1: int, i2: int| 0 <= i1 < i2 < ms.len() implies method_prefix(name, ms[i1]) != method_prefix(
            name,
            ms[i2],
        ) by {
            assert(method_prefix(name, ms[i1]) == global_prefix(s.service_name@, ms[i1].method_name@));
            assert(method_prefix(name, ms[i2]) == global_prefix(s.service_name@, ms[i2].method_name@));
        }
    }
}

} // verus!
