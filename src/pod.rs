use vstd::prelude::*;

verus! {

/// A reference from a pod to the object that controls it.
#[derive(Clone, Debug, Default, PartialEq, Eq)]
pub struct OwnerReference {
    pub kind: String,
    pub name: String,
}

/// The identifying metadata of a pod. Labels and annotations are lists of
/// key/value pairs in key order.
#[derive(Clone, Debug, Default, PartialEq, Eq)]
pub struct ObjectMeta {
    pub name: Option<String>,
    pub namespace: Option<String>,
    pub uid: Option<String>,
    pub owner_references: Option<Vec<OwnerReference>>,
    pub labels: Option<Vec<(String, String)>>,
    pub annotations: Option<Vec<(String, String)>>,
}

/// A container declared in a pod's spec.
#[derive(Clone, Debug, Default, PartialEq, Eq)]
pub struct Container {
    pub name: String,
    pub image: Option<String>,
}

/// The desired state of a pod.
#[derive(Clone, Debug, Default, PartialEq, Eq)]
pub struct PodSpec {
    pub node_name: Option<String>,
    pub containers: Vec<Container>,
}

/// One address of a pod; the address itself may be missing.
#[derive(Clone, Debug, Default, PartialEq, Eq)]
pub struct PodIP {
    pub ip: Option<String>,
}

/// The observed state of one container of a pod.
#[derive(Clone, Debug, Default, PartialEq, Eq)]
pub struct ContainerStatus {
    pub name: String,
    pub container_id: Option<String>,
}

/// The observed state of a pod.
#[derive(Clone, Debug, Default, PartialEq, Eq)]
pub struct PodStatus {
    pub pod_ip: Option<String>,
    pub pod_ips: Option<Vec<PodIP>>,
    pub container_statuses: Option<Vec<ContainerStatus>>,
}

/// A snapshot of a pod object.
#[derive(Clone, Debug, Default, PartialEq, Eq)]
pub struct Pod {
    pub metadata: ObjectMeta,
    pub spec: Option<PodSpec>,
    pub status: Option<PodStatus>,
}

/// The position of the first container with the given name, scanning from `i`.
pub open spec fn first_container_from(cs: Seq<Container>, name: Seq<char>, i: int) -> Option<int>
    decreases cs.len() - i,
{
    if i < 0 || i >= cs.len() {
        None
    } else if cs[i].name@ == name {
        Some(i)
    } else {
        first_container_from(cs, name, i + 1)
    }
}

/// The position of the first container status with the given name, scanning from `i`.
pub open spec fn first_status_from(cs: Seq<ContainerStatus>, name: Seq<char>, i: int) -> Option<
    int,
>
    decreases cs.len() - i,
{
    if i < 0 || i >= cs.len() {
        None
    } else if cs[i].name@ == name {
        Some(i)
    } else {
        first_status_from(cs, name, i + 1)
    }
}

/// The first container named `name`, if any.
pub fn find_container<'a>(cs: &'a Vec<Container>, name: &String) -> (r: Option<&'a Container>)
    ensures
        match first_container_from(cs@, name@, 0) {
            Some(i) => r == Some(&cs@[i]),
            None => r.is_none(),
        },
{
    let mut i: usize = 0;
    while i < cs.len()
        invariant
            i <= cs.len(),
            first_container_from(cs@, name@, 0) == first_container_from(cs@, name@, i as int),
        decreases cs.len() - i,
    {
        if cs[i].name == *name {
            return Some(&cs[i]);
        }
        i = i + 1;
    }
    None
}

/// The first container status named `name`, if any.
pub fn find_container_status<'a>(cs: &'a Vec<ContainerStatus>, name: &String) -> (r: Option<
    &'a ContainerStatus,
>)
    ensures
        match first_status_from(cs@, name@, 0) {
            Some(i) => r == Some(&cs@[i]),
            None => r.is_none(),
        },
{
    let mut i: usize = 0;
    while i < cs.len()
        invariant
            i <= cs.len(),
            first_status_from(cs@, name@, 0) == first_status_from(cs@, name@, i as int),
        decreases cs.len() - i,
    {
        if cs[i].name == *name {
            return Some(&cs[i]);
        }
        i = i + 1;
    }
    None
}

/// The addresses of a pod's address list, in order, leaving out entries without one.
pub open spec fn present_ips(ips: Seq<PodIP>) -> Seq<Seq<char>>
    decreases ips.len(),
{
    if ips.len() == 0 {
        Seq::empty()
    } else {
        let rest = present_ips(ips.drop_last());
        match ips.last().ip {
            Some(a) => rest.push(a@),
            None => rest,
        }
    }
}

/// The addresses of a pod's address list, leaving out entries without one.
pub fn collect_ips(ips: &Vec<PodIP>) -> (r: Vec<String>)
    ensures
        r.deep_view() == present_ips(ips@),
{
    let mut r: Vec<String> = Vec::new();
    let mut i: usize = 0;
    while i < ips.len()
        invariant
            i <= ips.len(),
            r.deep_view() == present_ips(ips@.subrange(0, i as int)),
        decreases ips.len() - i,
    {
        assert(ips@.subrange(0, i + 1).drop_last() =~= ips@.subrange(0, i as int));
        match &ips[i].ip {
            Some(a) => {
                r.push(a.clone());
                assert(r.deep_view() =~= present_ips(ips@.subrange(0, i as int)).push(a@));
            },
            None => {},
        }
        i = i + 1;
    }
    assert(ips@.subrange(0, ips.len() as int) =~= ips@);
    r
}

} // verus!
