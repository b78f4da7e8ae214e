use vstd::prelude::*;

use crate::path::OwnedTargetPath;

verus! {

/// The metadata fields that can be written into a record.
#[derive(Clone, Copy, Debug, PartialEq, Eq)]
pub enum Field {
    PodName,
    PodNamespace,
    PodUid,
    PodIp,
    PodIps,
    PodLabels,
    PodAnnotations,
    PodNodeName,
    PodOwner,
    ContainerName,
    ContainerId,
    ContainerImage,
}

/// Where each metadata field is written; `None` leaves the field out.
#[derive(Clone, Debug, PartialEq, Eq)]
pub struct FieldsSpec {
    pub pod_name: Option<OwnedTargetPath>,
    pub pod_namespace: Option<OwnedTargetPath>,
    pub pod_uid: Option<OwnedTargetPath>,
    pub pod_ip: Option<OwnedTargetPath>,
    pub pod_ips: Option<OwnedTargetPath>,
    pub pod_labels: Option<OwnedTargetPath>,
    pub pod_annotations: Option<OwnedTargetPath>,
    pub pod_node_name: Option<OwnedTargetPath>,
    pub pod_owner: Option<OwnedTargetPath>,
    pub container_name: Option<OwnedTargetPath>,
    pub container_id: Option<OwnedTargetPath>,
    pub container_image: Option<OwnedTargetPath>,
}

impl FieldsSpec {
    /// The location configured for a field.
    pub open spec fn slot(&self, f: Field) -> Option<OwnedTargetPath> {
        match f {
            Field::PodName => self.pod_name,
            Field::PodNamespace => self.pod_namespace,
            Field::PodUid => self.pod_uid,
            Field::PodIp => self.pod_ip,
            Field::PodIps => self.pod_ips,
            Field::PodLabels => self.pod_labels,
            Field::PodAnnotations => self.pod_annotations,
            Field::PodNodeName => self.pod_node_name,
            Field::PodOwner => self.pod_owner,
            Field::ContainerName => self.container_name,
            Field::ContainerId => self.container_id,
            Field::ContainerImage => self.container_image,
        }
    }
}

/// The default location of a field: a child of `kubernetes`.
pub open spec fn default_location(name: Seq<char>) -> Seq<Seq<char>> {
    seq!["kubernetes"@, name]
}

/// Whether a slot is set to the default location of the named field.
pub open spec fn at_default(slot: Option<OwnedTargetPath>, name: Seq<char>) -> bool {
    slot is Some && slot.unwrap()@ == default_location(name)
}

fn default_slot(name: &str) -> (r: Option<OwnedTargetPath>)
    ensures
        at_default(r, name@),
{
    let segments = vec!["kubernetes".to_owned(), name.to_owned()];
    assert(segments.deep_view() =~= default_location(name@));
    Some(OwnedTargetPath::event(segments))
}

impl Default for FieldsSpec {
    /// Every field enabled, at its default location.
    fn default() -> (r: FieldsSpec)
        ensures
            at_default(r.pod_name, "pod_name"@),
            at_default(r.pod_namespace, "pod_namespace"@),
            at_default(r.pod_uid, "pod_uid"@),
            at_default(r.pod_ip, "pod_ip"@),
            at_default(r.pod_ips, "pod_ips"@),
            at_default(r.pod_labels, "pod_labels"@),
            at_default(r.pod_annotations, "pod_annotations"@),
            at_default(r.pod_node_name, "pod_node_name"@),
            at_default(r.pod_owner, "pod_owner"@),
            at_default(r.container_name, "container_name"@),
            at_default(r.container_id, "container_id"@),
            at_default(r.container_image, "container_image"@),
    {
        FieldsSpec {
            pod_name: default_slot("pod_name"),
            pod_namespace: default_slot("pod_namespace"),
            pod_uid: default_slot("pod_uid"),
            pod_ip: default_slot("pod_ip"),
            pod_ips: default_slot("pod_ips"),
            pod_labels: default_slot("pod_labels"),
            pod_annotations: default_slot("pod_annotations"),
            pod_node_name: default_slot("pod_node_name"),
            pod_owner: default_slot("pod_owner"),
            container_name: default_slot("container_name"),
            container_id: default_slot("container_id"),
            container_image: default_slot("container_image"),
        }
    }
}

} // verus!
