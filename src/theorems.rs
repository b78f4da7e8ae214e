use vstd::prelude::*;

use crate::annotator::{
    apply_writes, entry_writes, entry_writes_seq, file_info_writes, ips_writes,
    matched_container_writes, matched_status_writes, metadata_writes, owner_writes, pod_spec_writes, pod_status_writes, pod_writes, spec_part,
    status_part, text_write, Write,
};
use crate::fields::{Field, FieldsSpec};
use crate::file_info::LogFileInfoView;
use crate::pod::{
    first_container_from, first_status_from, present_ips, Container, ContainerStatus, ObjectMeta,
    Pod, PodIP, PodStatus,
};
use crate::record::ValueView;

verus! {

/// Whether the pod, or the container named in the path, has the attribute
/// that a field is taken from.
pub open spec fn source_present(container_name: Seq<char>, pod: Pod, f: Field) -> bool {
    let meta = pod.metadata;
    match f {
        Field::PodName => meta.name is Some,
        Field::PodNamespace => meta.namespace is Some,
        Field::PodUid => meta.uid is Some,
        Field::PodOwner => meta.owner_references matches Some(rs) && rs.len() > 0,
        Field::PodLabels => meta.labels is Some,
        Field::PodAnnotations => meta.annotations is Some,
        Field::PodNodeName => pod.spec matches Some(s) && s.node_name is Some,
        Field::PodIp => pod.status matches Some(st) && st.pod_ip is Some,
        Field::PodIps => pod.status matches Some(st) && st.pod_ips is Some,
        Field::ContainerName => true,
        Field::ContainerImage => pod.spec matches Some(s) && first_container_from(
            s.containers@,
            container_name,
            0,
        ) matches Some(i) && s.containers@[i].image is Some,
        Field::ContainerId => pod.status matches Some(st) && st.container_statuses matches Some(
            css,
        ) && first_status_from(css@, container_name, 0) matches Some(i)
            && css@[i].container_id is Some,
    }
}

/// Every write in `ws` is of an enabled field whose source attribute is there.
pub open spec fn writes_justified(
    ws: Seq<Write>,
    fs: FieldsSpec,
    container_name: Seq<char>,
    pod: Pod,
) -> bool {
    forall|k: int|
        0 <= k < ws.len() ==> fs.slot(#[trigger] ws[k].0) is Some && source_present(
            container_name,
            pod,
            ws[k].0,
        )
}

proof fn lemma_justified_concat(
    a: Seq<Write>,
    b: Seq<Write>,
    fs: FieldsSpec,
    cn: Seq<char>,
    pod: Pod,
)
    requires
        writes_justified(a, fs, cn, pod),
        writes_justified(b, fs, cn, pod),
    ensures
        writes_justified(a + b, fs, cn, pod),
{
    assert forall|k: int| 0 <= k < (a + b).len() implies fs.slot(#[trigger] (a + b)[k].0) is Some
        && source_present(cn, pod, (a + b)[k].0) by {
        if k < a.len() {
            assert((a + b)[k] == a[k]);
        } else {
            assert((a + b)[k] == b[k - a.len()]);
        }
    }
}

proof fn lemma_metadata_justified(fs: FieldsSpec, cn: Seq<char>, pod: Pod)
    ensures
        writes_justified(metadata_writes(fs, pod.metadata), fs, cn, pod),
{
    let md = pod.metadata;
    let w1 = text_write(Field::PodName, fs.pod_name, md.name);
    let w2 = text_write(Field::PodNamespace, fs.pod_namespace, md.namespace);
    let w3 = text_write(Field::PodUid, fs.pod_uid, md.uid);
    let w4 = owner_writes(fs, md);
    let w5 = entry_writes(Field::PodLabels, fs.pod_labels, md.labels);
    let w6 = entry_writes(Field::PodAnnotations, fs.pod_annotations, md.annotations);
    assert(writes_justified(w1, fs, cn, pod));
    assert(writes_justified(w2, fs, cn, pod));
    assert(writes_justified(w3, fs, cn, pod));
    assert(writes_justified(w4, fs, cn, pod));
    assert(writes_justified(w5, fs, cn, pod));
    assert(writes_justified(w6, fs, cn, pod));
    lemma_justified_concat(w1, w2, fs, cn, pod);
    lemma_justified_concat(w1 + w2, w3, fs, cn, pod);
    lemma_justified_concat(w1 + w2 + w3, w4, fs, cn, pod);
    lemma_justified_concat(w1 + w2 + w3 + w4, w5, fs, cn, pod);
    lemma_justified_concat(w1 + w2 + w3 + w4 + w5, w6, fs, cn, pod);
}

proof fn lemma_parts_justified(fs: FieldsSpec, cn: Seq<char>, pod: Pod)
    ensures
        writes_justified(spec_part(fs, cn, pod), fs, cn, pod),
        writes_justified(status_part(fs, cn, pod), fs, cn, pod),
{
    if let Some(s) = pod.spec {
        assert(writes_justified(pod_spec_writes(fs, s), fs, cn, pod));
        assert(writes_justified(matched_container_writes(fs, cn, s), fs, cn, pod));
        lemma_justified_concat(
            pod_spec_writes(fs, s),
            matched_container_writes(fs, cn, s),
            fs,
            cn,
            pod,
        );
    }
    if let Some(st) = pod.status {
        let a = text_write(Field::PodIp, fs.pod_ip, st.pod_ip);
        assert(writes_justified(a, fs, cn, pod));
        assert(writes_justified(ips_writes(fs, st), fs, cn, pod));
        lemma_justified_concat(a, ips_writes(fs, st), fs, cn, pod);
        assert(writes_justified(matched_status_writes(fs, cn, st), fs, cn, pod));
        lemma_justified_concat(
            pod_status_writes(fs, st),
            matched_status_writes(fs, cn, st),
            fs,
            cn,
            pod,
        );
    }
}

/// Each write that annotating with a pod makes is of a field that is enabled
/// and whose source attribute is there.
pub proof fn lemma_writes_justified(fs: FieldsSpec, info: LogFileInfoView, pod: Pod)
    ensures
        writes_justified(pod_writes(fs, info, pod), fs, info.container_name, pod),
{
    let cn = info.container_name;
    assert(writes_justified(file_info_writes(fs, info), fs, cn, pod));
    lemma_metadata_justified(fs, cn, pod);
    lemma_parts_justified(fs, cn, pod);
    let a = file_info_writes(fs, info);
    let b = metadata_writes(fs, pod.metadata);
    lemma_justified_concat(a, b, fs, cn, pod);
    lemma_justified_concat(a + b, spec_part(fs, cn, pod), fs, cn, pod);
    lemma_justified_concat(a + b + spec_part(fs, cn, pod), status_part(fs, cn, pod), fs, cn, pod);
}

/// A disabled field is never written, whatever the pod holds.
pub proof fn lemma_disabled_field_never_written(
    fs: FieldsSpec,
    info: LogFileInfoView,
    pod: Pod,
    f: Field,
)
    requires
        fs.slot(f) is None,
    ensures
        forall|k: int|
            0 <= k < pod_writes(fs, info, pod).len() ==> #[trigger] pod_writes(
                fs,
                info,
                pod,
            )[k].0 != f,
{
    lemma_writes_justified(fs, info, pod);
}

/// A field whose source attribute is missing is never written: no empty or
/// null value stands in for it.
pub proof fn lemma_missing_attribute_never_written(
    fs: FieldsSpec,
    info: LogFileInfoView,
    pod: Pod,
    f: Field,
)
    requires
        !source_present(info.container_name, pod, f),
    ensures
        forall|k: int|
            0 <= k < pod_writes(fs, info, pod).len() ==> #[trigger] pod_writes(
                fs,
                info,
                pod,
            )[k].0 != f,
{
    lemma_writes_justified(fs, info, pod);
}

/// Whether the pod's spec lists a container with exactly this name.
pub open spec fn has_container_named(pod: Pod, name: Seq<char>) -> bool {
    match pod.spec {
        Some(s) => exists|i: int| 0 <= i < s.containers.len() && #[trigger] s.containers@[i].name@ == name,
        None => false,
    }
}

/// Whether the pod's status lists a container status with exactly this name.
pub open spec fn has_status_named(pod: Pod, name: Seq<char>) -> bool {
    match pod.status {
        Some(st) => match st.container_statuses {
            Some(css) => exists|i: int| 0 <= i < css.len() && #[trigger] css@[i].name@ == name,
            None => false,
        },
        None => false,
    }
}

/// The container image and container id are written only when a container,
/// or a container status, carries exactly the name from the path.
pub proof fn lemma_container_fields_need_name_match(fs: FieldsSpec, info: LogFileInfoView, pod: Pod)
    ensures
        forall|k: int|
            0 <= k < pod_writes(fs, info, pod).len() && #[trigger] pod_writes(fs, info, pod)[k].0
                == Field::ContainerImage ==> has_container_named(pod, info.container_name),
        forall|k: int|
            0 <= k < pod_writes(fs, info, pod).len() && #[trigger] pod_writes(fs, info, pod)[k].0
                == Field::ContainerId ==> has_status_named(pod, info.container_name),
{
    lemma_writes_justified(fs, info, pod);
    if let Some(s) = pod.spec {
        if let Some(i) = first_container_from(s.containers@, info.container_name, 0) {
            lemma_first_container_found(s.containers@, info.container_name, 0);
            assert(s.containers@[i].name@ == info.container_name);
        }
    }
    if let Some(st) = pod.status {
        if let Some(css) = st.container_statuses {
            if let Some(i) = first_status_from(css@, info.container_name, 0) {
                lemma_first_status_found(css@, info.container_name, 0);
                assert(css@[i].name@ == info.container_name);
            }
        }
    }
}

/// A label or annotation key becomes exactly one segment after the prefix,
/// whatever characters it holds (a `.` in it splits nothing).
pub proof fn lemma_entry_key_is_one_segment(
    f: Field,
    prefix: Seq<Seq<char>>,
    es: Seq<(String, String)>,
    k: int,
)
    requires
        0 <= k < es.len(),
    ensures
        entry_writes_seq(f, prefix, es)[k].1 == prefix.push(es[k].0@),
        entry_writes_seq(f, prefix, es)[k].1.len() == prefix.len() + 1,
        entry_writes_seq(f, prefix, es)[k].1.last() == es[k].0@,
{
}

/// Reading back, after the writes of a label or annotation map, the path of
/// a key gives the value of its last pair.
pub proof fn lemma_entry_round_trip(
    m: Map<Seq<Seq<char>>, ValueView>,
    f: Field,
    prefix: Seq<Seq<char>>,
    es: Seq<(String, String)>,
    i: int,
)
    requires
        0 <= i < es.len(),
        forall|j: int| i < j < es.len() ==> #[trigger] es[j].0@ != es[i].0@,
    ensures
        apply_writes(m, entry_writes_seq(f, prefix, es)).contains_key(prefix.push(es[i].0@)),
        apply_writes(m, entry_writes_seq(f, prefix, es))[prefix.push(es[i].0@)]
            == ValueView::Text(es[i].1@),
    decreases es.len(),
{
    let ws = entry_writes_seq(f, prefix, es);
    assert(ws.drop_last() =~= entry_writes_seq(f, prefix, es.drop_last()));
    if i < es.len() - 1 {
        lemma_entry_round_trip(m, f, prefix, es.drop_last(), i);
        let last_key = es[es.len() - 1].0@;
        assert(last_key != es[i].0@);
        if prefix.push(last_key) == prefix.push(es[i].0@) {
            assert(prefix.push(last_key).last() == last_key);
        }
    }
}

/// The owner field is `<kind>/<name>` of the first owner reference; the
/// references after it change nothing.
pub proof fn lemma_owner_is_first_reference(fs: FieldsSpec, m1: ObjectMeta, m2: ObjectMeta)
    requires
        fs.pod_owner is Some,
        m1.owner_references is Some,
        m2.owner_references is Some,
        m1.owner_references.unwrap().len() > 0,
        m2.owner_references.unwrap().len() > 0,
        m1.owner_references.unwrap()@[0] == m2.owner_references.unwrap()@[0],
    ensures
        owner_writes(fs, m1) == owner_writes(fs, m2),
        owner_writes(fs, m1) == seq![
            (
                Field::PodOwner,
                fs.pod_owner.unwrap()@,
                ValueView::Text(
                    m1.owner_references.unwrap()@[0].kind@ + seq!['/']
                        + m1.owner_references.unwrap()@[0].name@,
                ),
            ),
        ],
{
}

/// Without an address, the address field is not written; the address list
/// alone decides what else the status writes.
pub proof fn lemma_pod_ip_omitted_when_absent(fs: FieldsSpec, status: PodStatus)
    requires
        status.pod_ip is None,
    ensures
        pod_status_writes(fs, status) == ips_writes(fs, status),
{
    assert(text_write(Field::PodIp, fs.pod_ip, status.pod_ip) =~= Seq::<Write>::empty());
    assert(pod_status_writes(fs, status) =~= ips_writes(fs, status));
}

proof fn lemma_no_present_ips(ips: Seq<PodIP>)
    requires
        forall|k: int| 0 <= k < ips.len() ==> (#[trigger] ips[k]).ip is None,
    ensures
        present_ips(ips) == Seq::<Seq<char>>::empty(),
    decreases ips.len(),
{
    if ips.len() > 0 {
        assert(ips.last() == ips[ips.len() - 1]);
        lemma_no_present_ips(ips.drop_last());
    }
}

/// An address list whose entries all lack an address is still written, as
/// an empty list.
pub proof fn lemma_pod_ips_empty_list(fs: FieldsSpec, status: PodStatus)
    requires
        fs.pod_ips is Some,
        status.pod_ips is Some,
        forall|k: int|
            0 <= k < status.pod_ips.unwrap().len() ==> (#[trigger] status.pod_ips.unwrap()@[k]).ip is None,
    ensures
        ips_writes(fs, status) == seq![
            (Field::PodIps, fs.pod_ips.unwrap()@, ValueView::List(Seq::<Seq<char>>::empty())),
        ],
{
    lemma_no_present_ips(status.pod_ips.unwrap()@);
}

proof fn lemma_first_container_found(cs: Seq<Container>, name: Seq<char>, i: int)
    ensures
        first_container_from(cs, name, i) matches Some(j) ==> 0 <= j < cs.len() && cs[j].name@
            == name,
    decreases cs.len() - i,
{
    if 0 <= i < cs.len() && cs[i].name@ != name {
        lemma_first_container_found(cs, name, i + 1);
    }
}

proof fn lemma_first_status_found(cs: Seq<ContainerStatus>, name: Seq<char>, i: int)
    ensures
        first_status_from(cs, name, i) matches Some(j) ==> 0 <= j < cs.len() && cs[j].name@
            == name,
    decreases cs.len() - i,
{
    if 0 <= i < cs.len() && cs[i].name@ != name {
        lemma_first_status_found(cs, name, i + 1);
    }
}

} // verus!
