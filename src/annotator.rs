use vstd::prelude::*;

use crate::fields::{Field, FieldsSpec};
use crate::file_info::{parse_log_file_path, parse_spec, LogFileInfo, LogFileInfoView};
use crate::path::OwnedTargetPath;
use crate::pod::{
    collect_ips, find_container, find_container_status, first_container_from, first_status_from,
    present_ips, Container, ContainerStatus, ObjectMeta, OwnerReference, Pod, PodSpec, PodStatus,
};
use crate::record::{LogEvent, Value, ValueView};

verus! {

/// One write into a record: the field it stands for, the path, the value.
pub type Write = (Field, Seq<Seq<char>>, ValueView);

/// A record's fields after a sequence of writes, made in order.
pub open spec fn apply_writes(m: Map<Seq<Seq<char>>, ValueView>, w: Seq<Write>) -> Map<
    Seq<Seq<char>>,
    ValueView,
>
    decreases w.len(),
{
    if w.len() == 0 {
        m
    } else {
        apply_writes(m, w.drop_last()).insert(w.last().1, w.last().2)
    }
}

/// The write of a text attribute: made when both the location and the value are there.
pub open spec fn text_write(f: Field, slot: Option<OwnedTargetPath>, val: Option<String>) -> Seq<
    Write,
> {
    match (slot, val) {
        (Some(p), Some(v)) => seq![(f, p@, ValueView::Text(v@))],
        _ => Seq::empty(),
    }
}

/// One write per key/value pair, each key appended to `prefix` as a single segment.
pub open spec fn entry_writes_seq(f: Field, prefix: Seq<Seq<char>>, es: Seq<(String, String)>) -> Seq<
    Write,
> {
    es.map_values(|e: (String, String)| (f, prefix.push(e.0@), ValueView::Text(e.1@)))
}

/// The writes of a label or annotation map, when both the prefix and the map are there.
pub open spec fn entry_writes(
    f: Field,
    slot: Option<OwnedTargetPath>,
    es: Option<Vec<(String, String)>>,
) -> Seq<Write> {
    match (slot, es) {
        (Some(p), Some(es)) => entry_writes_seq(f, p@, es@),
        _ => Seq::empty(),
    }
}

/// An owner reference written as `<kind>/<name>`.
pub open spec fn owner_text(r: OwnerReference) -> Seq<char> {
    r.kind@ + seq!['/'] + r.name@
}

/// The owner write: the first owner reference only.
pub open spec fn owner_writes(fs: FieldsSpec, meta: ObjectMeta) -> Seq<Write> {
    match (fs.pod_owner, meta.owner_references) {
        (Some(p), Some(rs)) => if rs.len() > 0 {
            seq![(Field::PodOwner, p@, ValueView::Text(owner_text(rs[0])))]
        } else {
            Seq::empty()
        },
        _ => Seq::empty(),
    }
}

/// The writes taken from the file path.
pub open spec fn file_info_writes(fs: FieldsSpec, info: LogFileInfoView) -> Seq<Write> {
    match fs.container_name {
        Some(p) => seq![(Field::ContainerName, p@, ValueView::Text(info.container_name))],
        None => Seq::empty(),
    }
}

/// The writes taken from a pod's metadata.
pub open spec fn metadata_writes(fs: FieldsSpec, meta: ObjectMeta) -> Seq<Write> {
    text_write(Field::PodName, fs.pod_name, meta.name) + text_write(
        Field::PodNamespace,
        fs.pod_namespace,
        meta.namespace,
    ) + text_write(Field::PodUid, fs.pod_uid, meta.uid) + owner_writes(fs, meta) + entry_writes(
        Field::PodLabels,
        fs.pod_labels,
        meta.labels,
    ) + entry_writes(Field::PodAnnotations, fs.pod_annotations, meta.annotations)
}

/// The writes taken from a pod's spec.
pub open spec fn pod_spec_writes(fs: FieldsSpec, spec: PodSpec) -> Seq<Write> {
    text_write(Field::PodNodeName, fs.pod_node_name, spec.node_name)
}

/// The address-list write: the present addresses, possibly none.
pub open spec fn ips_writes(fs: FieldsSpec, status: PodStatus) -> Seq<Write> {
    match (fs.pod_ips, status.pod_ips) {
        (Some(p), Some(ips)) => seq![(Field::PodIps, p@, ValueView::List(present_ips(ips@)))],
        _ => Seq::empty(),
    }
}

/// The writes taken from a pod's status.
pub open spec fn pod_status_writes(fs: FieldsSpec, status: PodStatus) -> Seq<Write> {
    text_write(Field::PodIp, fs.pod_ip, status.pod_ip) + ips_writes(fs, status)
}

/// The writes taken from a container.
pub open spec fn container_writes(fs: FieldsSpec, c: Container) -> Seq<Write> {
    text_write(Field::ContainerImage, fs.container_image, c.image)
}

/// The writes taken from a container status.
pub open spec fn container_status_writes(fs: FieldsSpec, cs: ContainerStatus) -> Seq<Write> {
    text_write(Field::ContainerId, fs.container_id, cs.container_id)
}

/// The writes taken from the first container of the spec with the given name, if any.
pub open spec fn matched_container_writes(
    fs: FieldsSpec,
    container_name: Seq<char>,
    spec: PodSpec,
) -> Seq<Write> {
    match first_container_from(spec.containers@, container_name, 0) {
        Some(i) => container_writes(fs, spec.containers@[i]),
        None => Seq::empty(),
    }
}

/// The writes taken from the first container status with the given name, if any.
pub open spec fn matched_status_writes(
    fs: FieldsSpec,
    container_name: Seq<char>,
    status: PodStatus,
) -> Seq<Write> {
    match status.container_statuses {
        Some(css) => match first_status_from(css@, container_name, 0) {
            Some(i) => container_status_writes(fs, css@[i]),
            None => Seq::empty(),
        },
        None => Seq::empty(),
    }
}

/// The writes taken from a pod's spec and the container named in the path.
pub open spec fn spec_part(fs: FieldsSpec, container_name: Seq<char>, pod: Pod) -> Seq<Write> {
    match pod.spec {
        Some(s) => pod_spec_writes(fs, s) + matched_container_writes(fs, container_name, s),
        None => Seq::empty(),
    }
}

/// The writes taken from a pod's status and the container status named in the path.
pub open spec fn status_part(fs: FieldsSpec, container_name: Seq<char>, pod: Pod) -> Seq<Write> {
    match pod.status {
        Some(st) => pod_status_writes(fs, st) + matched_status_writes(fs, container_name, st),
        None => Seq::empty(),
    }
}

/// All writes that annotating with a resolved pod makes, in order.
pub open spec fn pod_writes(fs: FieldsSpec, info: LogFileInfoView, pod: Pod) -> Seq<Write> {
    file_info_writes(fs, info) + metadata_writes(fs, pod.metadata) + spec_part(
        fs,
        info.container_name,
        pod,
    ) + status_part(fs, info.container_name, pod)
}

/// Writing `a` and then `b` is writing `a + b`.
pub proof fn lemma_apply_concat(m: Map<Seq<Seq<char>>, ValueView>, a: Seq<Write>, b: Seq<Write>)
    ensures
        apply_writes(m, a + b) == apply_writes(apply_writes(m, a), b),
    decreases b.len(),
{
    if b.len() == 0 {
        assert(a + b =~= a);
    } else {
        assert((a + b).drop_last() =~= a + b.drop_last());
        lemma_apply_concat(m, a, b.drop_last());
    }
}

proof fn lemma_apply_one(m: Map<Seq<Seq<char>>, ValueView>, w: Write)
    ensures
        apply_writes(m, seq![w]) == m.insert(w.1, w.2),
{
    assert(seq![w].drop_last() =~= Seq::<Write>::empty());
    assert(apply_writes(m, Seq::<Write>::empty()) == m);
    assert(seq![w].last() == w);
}

/// Writes one text attribute when both its location and its value are there.
fn project(
    log: &mut LogEvent,
    slot: &Option<OwnedTargetPath>,
    val: &Option<String>,
    Ghost(f): Ghost<Field>,
)
    requires
        old(log).wf(),
    ensures
        final(log).wf(),
        final(log)@ == apply_writes(old(log)@, text_write(f, *slot, *val)),
{
    if let (Some(p), Some(v)) = (slot, val) {
        log.insert(&p.segments, Value::Bytes(v.clone()));
        proof {
            lemma_apply_one(old(log)@, (f, p@, ValueView::Text(v@)));
        }
    }
}

/// Writes each key/value pair under `prefix`, the key as one segment.
fn project_entries(
    log: &mut LogEvent,
    slot: &Option<OwnedTargetPath>,
    es: &Option<Vec<(String, String)>>,
    Ghost(f): Ghost<Field>,
)
    requires
        old(log).wf(),
    ensures
        final(log).wf(),
        final(log)@ == apply_writes(old(log)@, entry_writes(f, *slot, *es)),
{
    if let (Some(prefix), Some(es)) = (slot, es) {
        let ghost m = log@;
        let mut i: usize = 0;
        assert(entry_writes_seq(f, prefix@, es@.subrange(0, 0)) =~= Seq::<Write>::empty());
        while i < es.len()
            invariant
                log.wf(),
                i <= es.len(),
                log@ == apply_writes(m, entry_writes_seq(f, prefix@, es@.subrange(0, i as int))),
            decreases es.len() - i,
        {
            let key_path = prefix.with_segment(&es[i].0);
            log.insert(&key_path.segments, Value::Bytes(es[i].1.clone()));
            let ghost w = entry_writes_seq(f, prefix@, es@.subrange(0, i + 1));
            assert(w.drop_last() =~= entry_writes_seq(f, prefix@, es@.subrange(0, i as int)));
            i = i + 1;
        }
        assert(es@.subrange(0, es.len() as int) =~= es@);
    }
}

/// Writes the container name taken from the file path.
pub fn annotate_from_file_info(log: &mut LogEvent, fields_spec: &FieldsSpec, file_info: &LogFileInfo)
    requires
        old(log).wf(),
    ensures
        final(log).wf(),
        final(log)@ == apply_writes(old(log)@, file_info_writes(*fields_spec, file_info@)),
{
    if let Some(p) = &fields_spec.container_name {
        log.insert(&p.segments, Value::Bytes(file_info.container_name.clone()));
        proof {
            lemma_apply_one(
                old(log)@,
                (Field::ContainerName, p@, ValueView::Text(file_info.container_name@)),
            );
        }
    }
}

/// Writes the owner field from the first owner reference.
fn project_owner(log: &mut LogEvent, fields_spec: &FieldsSpec, metadata: &ObjectMeta)
    requires
        old(log).wf(),
    ensures
        final(log).wf(),
        final(log)@ == apply_writes(old(log)@, owner_writes(*fields_spec, *metadata)),
{
    if let (Some(p), Some(rs)) = (&fields_spec.pod_owner, &metadata.owner_references) {
        if rs.len() > 0 {
            let mut s = rs[0].kind.clone();
            s.append("/");
            s.append(rs[0].name.as_str());
            proof {
                reveal_strlit("/");
                assert(s@ =~= owner_text(rs@[0]));
                lemma_apply_one(
                    old(log)@,
                    (Field::PodOwner, p@, ValueView::Text(owner_text(rs@[0]))),
                );
            }
            log.insert(&p.segments, Value::Bytes(s));
        }
    }
}

/// Writes the name, namespace, uid, owner, labels and annotations of a pod.
pub fn annotate_from_metadata(log: &mut LogEvent, fields_spec: &FieldsSpec, metadata: &ObjectMeta)
    requires
        old(log).wf(),
    ensures
        final(log).wf(),
        final(log)@ == apply_writes(old(log)@, metadata_writes(*fields_spec, *metadata)),
{
    let ghost m = log@;
    let ghost fs = *fields_spec;
    let ghost md = *metadata;
    let ghost w1 = text_write(Field::PodName, fs.pod_name, md.name);
    let ghost w2 = text_write(Field::PodNamespace, fs.pod_namespace, md.namespace);
    let ghost w3 = text_write(Field::PodUid, fs.pod_uid, md.uid);
    let ghost w4 = owner_writes(fs, md);
    let ghost w5 = entry_writes(Field::PodLabels, fs.pod_labels, md.labels);
    let ghost w6 = entry_writes(Field::PodAnnotations, fs.pod_annotations, md.annotations);
    project(log, &fields_spec.pod_name, &metadata.name, Ghost(Field::PodName));
    project(log, &fields_spec.pod_namespace, &metadata.namespace, Ghost(Field::PodNamespace));
    proof {
        lemma_apply_concat(m, w1, w2);
    }
    project(log, &fields_spec.pod_uid, &metadata.uid, Ghost(Field::PodUid));
    proof {
        lemma_apply_concat(m, w1 + w2, w3);
    }
    project_owner(log, fields_spec, metadata);
    proof {
        lemma_apply_concat(m, w1 + w2 + w3, w4);
    }
    project_entries(log, &fields_spec.pod_labels, &metadata.labels, Ghost(Field::PodLabels));
    proof {
        lemma_apply_concat(m, w1 + w2 + w3 + w4, w5);
    }
    project_entries(
        log,
        &fields_spec.pod_annotations,
        &metadata.annotations,
        Ghost(Field::PodAnnotations),
    );
    proof {
        lemma_apply_concat(m, w1 + w2 + w3 + w4 + w5, w6);
    }
}

/// Writes the node name of a pod.
pub fn annotate_from_pod_spec(log: &mut LogEvent, fields_spec: &FieldsSpec, pod_spec: &PodSpec)
    requires
        old(log).wf(),
    ensures
        final(log).wf(),
        final(log)@ == apply_writes(old(log)@, pod_spec_writes(*fields_spec, *pod_spec)),
{
    project(log, &fields_spec.pod_node_name, &pod_spec.node_name, Ghost(Field::PodNodeName));
}

/// Writes the address and the list of present addresses of a pod.
pub fn annotate_from_pod_status(
    log: &mut LogEvent,
    fields_spec: &FieldsSpec,
    pod_status: &PodStatus,
)
    requires
        old(log).wf(),
    ensures
        final(log).wf(),
        final(log)@ == apply_writes(old(log)@, pod_status_writes(*fields_spec, *pod_status)),
{
    let ghost m = log@;
    project(log, &fields_spec.pod_ip, &pod_status.pod_ip, Ghost(Field::PodIp));
    let ghost mid = log@;
    if let (Some(p), Some(ips)) = (&fields_spec.pod_ips, &pod_status.pod_ips) {
        let inner = collect_ips(ips);
        log.insert(&p.segments, Value::Array(inner));
        proof {
            lemma_apply_one(mid, (Field::PodIps, p@, ValueView::List(present_ips(ips@))));
        }
    }
    proof {
        lemma_apply_concat(
            m,
            text_write(Field::PodIp, fields_spec.pod_ip, pod_status.pod_ip),
            ips_writes(*fields_spec, *pod_status),
        );
    }
}

/// Writes the id of a container status.
pub fn annotate_from_container_status(
    log: &mut LogEvent,
    fields_spec: &FieldsSpec,
    container_status: &ContainerStatus,
)
    requires
        old(log).wf(),
    ensures
        final(log).wf(),
        final(log)@ == apply_writes(
            old(log)@,
            container_status_writes(*fields_spec, *container_status),
        ),
{
    project(
        log,
        &fields_spec.container_id,
        &container_status.container_id,
        Ghost(Field::ContainerId),
    );
}

/// Writes the image of a container.
pub fn annotate_from_container(log: &mut LogEvent, fields_spec: &FieldsSpec, container: &Container)
    requires
        old(log).wf(),
    ensures
        final(log).wf(),
        final(log)@ == apply_writes(old(log)@, container_writes(*fields_spec, *container)),
{
    project(log, &fields_spec.container_image, &container.image, Ghost(Field::ContainerImage));
}

/// Writes everything that a resolved pod and its log file tell, in a fixed
/// order: file, metadata, spec and container, status and container status.
pub fn annotate_from_pod(
    log: &mut LogEvent,
    fields_spec: &FieldsSpec,
    file_info: &LogFileInfo,
    pod: &Pod,
)
    requires
        old(log).wf(),
    ensures
        final(log).wf(),
        final(log)@ == apply_writes(old(log)@, pod_writes(*fields_spec, file_info@, *pod)),
{
    let ghost m = log@;
    let ghost fs = *fields_spec;
    let ghost cn = file_info.container_name@;
    let ghost a = file_info_writes(fs, file_info@);
    let ghost b = metadata_writes(fs, pod.metadata);
    let ghost c = spec_part(fs, cn, *pod);
    let ghost d = status_part(fs, cn, *pod);
    annotate_from_file_info(log, fields_spec, file_info);
    annotate_from_metadata(log, fields_spec, &pod.metadata);
    proof {
        lemma_apply_concat(m, a, b);
    }
    if let Some(pod_spec) = &pod.spec {
        let ghost before = log@;
        annotate_from_pod_spec(log, fields_spec, pod_spec);
        let container = find_container(&pod_spec.containers, &file_info.container_name);
        let ghost mid = log@;
        if let Some(container) = container {
            annotate_from_container(log, fields_spec, container);
        }
        proof {
            lemma_apply_concat(
                before,
                pod_spec_writes(fs, *pod_spec),
                matched_container_writes(fs, cn, *pod_spec),
            );
        }
    }
    proof {
        lemma_apply_concat(m, a + b, c);
    }
    if let Some(pod_status) = &pod.status {
        let ghost before = log@;
        annotate_from_pod_status(log, fields_spec, pod_status);
        if let Some(container_statuses) = &pod_status.container_statuses {
            let container_status = find_container_status(
                container_statuses,
                &file_info.container_name,
            );
            if let Some(container_status) = container_status {
                annotate_from_container_status(log, fields_spec, container_status);
            }
        }
        proof {
            lemma_apply_concat(
                before,
                pod_status_writes(fs, *pod_status),
                matched_status_writes(fs, cn, *pod_status),
            );
        }
    }
    proof {
        lemma_apply_concat(m, a + b + c, d);
    }
}


/// Whether a pod's metadata names it `name` in namespace `namespace`.
pub open spec fn pod_is(pod: Pod, namespace: Seq<char>, name: Seq<char>) -> bool {
    &&& pod.metadata.namespace matches Some(ns) && ns@ == namespace
    &&& pod.metadata.name matches Some(n) && n@ == name
}

/// The position of the first pod named `name` in `namespace`, scanning from `i`.
pub open spec fn first_pod_from(pods: Seq<Pod>, namespace: Seq<char>, name: Seq<char>, i: int) -> Option<
    int,
>
    decreases pods.len() - i,
{
    if i < 0 || i >= pods.len() {
        None
    } else if pod_is(pods[i], namespace, name) {
        Some(i)
    } else {
        first_pod_from(pods, namespace, name, i + 1)
    }
}

fn same_opt_string(a: &Option<String>, b: &String) -> (r: bool)
    ensures
        r == (a matches Some(s) && s@ == b@),
{
    match a {
        Some(s) => *s == *b,
        None => false,
    }
}

/// A point-in-time view of the known pods, looked up by namespace and name.
pub struct PodStore {
    pub pods: Vec<Pod>,
}

impl PodStore {
    /// A store holding the given pods.
    pub fn new(pods: Vec<Pod>) -> (r: PodStore)
        ensures
            r.pods@ == pods@,
    {
        PodStore { pods }
    }

    /// The first pod named `name` in `namespace`.
    pub fn get(&self, namespace: &String, name: &String) -> (r: Option<&Pod>)
        ensures
            match first_pod_from(self.pods@, namespace@, name@, 0) {
                Some(i) => r == Some(&self.pods@[i]),
                None => r is None,
            },
    {
        let mut i: usize = 0;
        while i < self.pods.len()
            invariant
                i <= self.pods.len(),
                first_pod_from(self.pods@, namespace@, name@, 0) == first_pod_from(
                    self.pods@,
                    namespace@,
                    name@,
                    i as int,
                ),
            decreases self.pods.len() - i,
        {
            let pod = &self.pods[i];
            if same_opt_string(&pod.metadata.namespace, namespace) && same_opt_string(
                &pod.metadata.name,
                name,
            ) {
                return Some(pod);
            }
            i = i + 1;
        }
        None
    }
}

/// Annotates records with the metadata of the pod whose log file they come from.
pub struct PodMetadataAnnotator {
    pub pods_state_reader: PodStore,
    pub fields_spec: FieldsSpec,
}

impl PodMetadataAnnotator {
    /// An annotator over the given pods, writing where `fields_spec` says.
    pub fn new(pods_state_reader: PodStore, fields_spec: FieldsSpec) -> (r: PodMetadataAnnotator)
        ensures
            r.pods_state_reader == pods_state_reader,
            r.fields_spec == fields_spec,
    {
        PodMetadataAnnotator { pods_state_reader, fields_spec }
    }

    /// Annotates `event` with the metadata of the pod that wrote the log file
    /// `file`. When the path is not that of a container log file, or no such
    /// pod is known, the event is left as it is and `None` comes back.
    pub fn annotate(&self, event: &mut LogEvent, file: &str) -> (r: Option<LogFileInfo>)
        requires
            old(event).wf(),
        ensures
            final(event).wf(),
            match parse_spec(file@) {
                None => r is None && *final(event) == *old(event),
                Some(v) => match first_pod_from(
                    self.pods_state_reader.pods@,
                    v.pod_namespace,
                    v.pod_name,
                    0,
                ) {
                    None => r is None && *final(event) == *old(event),
                    Some(i) => r matches Some(info) && info@ == v && final(event)@ == apply_writes(
                        old(event)@,
                        pod_writes(self.fields_spec, v, self.pods_state_reader.pods@[i]),
                    ),
                },
            },
    {
        let file_info = match parse_log_file_path(file) {
            Some(info) => info,
            None => return None,
        };
        let pod = match self.pods_state_reader.get(&file_info.pod_namespace, &file_info.pod_name) {
            Some(pod) => pod,
            None => return None,
        };
        annotate_from_pod(event, &self.fields_spec, &file_info, pod);
        Some(file_info)
    }
}

} // verus!
