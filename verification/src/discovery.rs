//! From what the lookups return to the options that a picker shows.
//!
//! The descriptions here hold, as plain values, the parts of a lookup's
//! answer that the workflow reads.
use crate::porwarder::{OptionText, SelectionOption};
use vstd::prelude::*;
use vstd::string::*;

verus! {

/// A tag of an instance. Either part may be missing.
#[derive(Clone, Debug, PartialEq, Eq)]
pub struct Tag {
    pub key: Option<String>,
    pub value: Option<String>,
}

/// A running instance, as far as the workflow reads it.
#[derive(Clone, Debug, PartialEq, Eq)]
pub struct InstanceDescription {
    pub instance_id: Option<String>,
    pub tags: Vec<Tag>,
}

/// The instances that were started together.
#[derive(Clone, Debug, PartialEq, Eq)]
pub struct Reservation {
    pub instances: Vec<InstanceDescription>,
}

/// A load balancer, as far as the workflow reads it.
#[derive(Clone, Debug, PartialEq, Eq)]
pub struct LoadBalancerDescription {
    pub dns_name: Option<String>,
    pub load_balancer_name: Option<String>,
}

/// An endpoint of a database cluster, as far as the workflow reads it.
#[derive(Clone, Debug, PartialEq, Eq)]
pub struct ClusterEndpointDescription {
    pub endpoint: Option<String>,
}

/// A text that may be missing; a missing one counts as empty.
pub open spec fn text_or_empty(text: Option<String>) -> Seq<char> {
    match text {
        Some(t) => t@,
        None => Seq::empty(),
    }
}

/// The value of the first tag whose key is `Name`; empty where no tag has
/// that key.
pub open spec fn name_of(tags: Seq<Tag>) -> Seq<char>
    decreases tags.len(),
{
    if tags.len() == 0 {
        Seq::empty()
    } else if text_or_empty(tags[0].key) == "Name"@ {
        text_or_empty(tags[0].value)
    } else {
        name_of(tags.skip(1))
    }
}

/// The label of an instance: its name, then its identifier in brackets.
pub open spec fn instance_label_spec(name: Seq<char>, id: Seq<char>) -> Seq<char> {
    name + " ("@ + id + ")"@
}

/// The option that stands for an instance. One without an identifier gives
/// none.
pub open spec fn instance_option(instance: InstanceDescription) -> Option<OptionText> {
    match instance.instance_id {
        Some(id) => Some(
            OptionText {
                identifier: id@,
                label: instance_label_spec(name_of(instance.tags@), id@),
            },
        ),
        None => None,
    }
}

/// The options of a list of instances, in the order of the list.
pub open spec fn instances_in(instances: Seq<InstanceDescription>) -> Seq<OptionText>
    decreases instances.len(),
{
    if instances.len() == 0 {
        Seq::empty()
    } else {
        let before = instances_in(instances.drop_last());
        match instance_option(instances.last()) {
            Some(option) => before.push(option),
            None => before,
        }
    }
}

/// The options of all instances of a list of reservations: reservation by
/// reservation, and inside each in the order of its instances.
pub open spec fn instances_of(reservations: Seq<Reservation>) -> Seq<OptionText>
    decreases reservations.len(),
{
    if reservations.len() == 0 {
        Seq::empty()
    } else {
        instances_of(reservations.drop_last()) + instances_in(reservations.last().instances@)
    }
}

/// The option that stands for a load balancer: its DNS name is stored, its
/// name is shown, or the DNS name where it has no name. One without a DNS
/// name gives none.
pub open spec fn load_balancer_option(balancer: LoadBalancerDescription) -> Option<OptionText> {
    match balancer.dns_name {
        Some(dns) => Some(
            OptionText {
                identifier: dns@,
                label: match balancer.load_balancer_name {
                    Some(name) => name@,
                    None => dns@,
                },
            },
        ),
        None => None,
    }
}

/// The options of a list of load balancers, in the order of the list.
pub open spec fn load_balancers_in(found: Seq<LoadBalancerDescription>) -> Seq<OptionText>
    decreases found.len(),
{
    if found.len() == 0 {
        Seq::empty()
    } else {
        let before = load_balancers_in(found.drop_last());
        match load_balancer_option(found.last()) {
            Some(option) => before.push(option),
            None => before,
        }
    }
}

/// The option that stands for a cluster endpoint: the endpoint is stored
/// and shown. A description without an endpoint gives none.
pub open spec fn cluster_endpoint_option(found: ClusterEndpointDescription) -> Option<OptionText> {
    match found.endpoint {
        Some(endpoint) => Some(OptionText { identifier: endpoint@, label: endpoint@ }),
        None => None,
    }
}

/// The options of a list of cluster endpoints, in the order of the list.
pub open spec fn cluster_endpoints_in(found: Seq<ClusterEndpointDescription>) -> Seq<OptionText>
    decreases found.len(),
{
    if found.len() == 0 {
        Seq::empty()
    } else {
        let before = cluster_endpoints_in(found.drop_last());
        match cluster_endpoint_option(found.last()) {
            Some(option) => before.push(option),
            None => before,
        }
    }
}

/// A list of options, each as texts.
pub open spec fn options_view(options: Seq<SelectionOption>) -> Seq<OptionText> {
    options.map_values(|option: SelectionOption| option@)
}

/// Finds the name of an instance among its tags.
pub fn name_tag(tags: &Vec<Tag>) -> (name: String)
    ensures
        name@ == name_of(tags@),
{
    let wanted = String::from_str("Name");
    proof {
        reveal_strlit("Name");
    }
    let mut position: usize = 0;
    assert(tags@.skip(0) =~= tags@);
    while position < tags.len()
        invariant
            position <= tags@.len(),
            wanted@ == "Name"@,
            "Name"@.len() == 4,
            name_of(tags@) == name_of(tags@.skip(position as int)),
        decreases tags@.len() - position,
    {
        let tag = &tags[position];
        proof {
            let rest = tags@.skip(position as int);
            assert(rest[0] == tags@[position as int]);
            assert(rest.skip(1) =~= tags@.skip(position + 1));
        }
        let found = match &tag.key {
            Some(key) => key.eq(&wanted),
            None => false,
        };
        if found {
            return match &tag.value {
                Some(value) => value.clone(),
                None => String::new(),
            };
        }
        position += 1;
    }
    String::new()
}

/// Writes the label of an instance.
pub fn instance_label(name: &str, id: &str) -> (label: String)
    ensures
        label@ == instance_label_spec(name@, id@),
{
    let mut label = String::from_str(name);
    label.append(" (");
    label.append(id);
    label.append(")");
    label
}

/// Turns the reservations that a lookup returned into the options of the
/// instance stage: one for each instance that has an identifier.
pub fn instance_options(reservations: &Vec<Reservation>) -> (options: Vec<SelectionOption>)
    ensures
        options_view(options@) == instances_of(reservations@),
{
    let mut options: Vec<SelectionOption> = Vec::new();
    let mut outer: usize = 0;
    assert(options_view(options@) =~= instances_of(reservations@.take(0)));
    while outer < reservations.len()
        invariant
            outer <= reservations@.len(),
            options_view(options@) == instances_of(reservations@.take(outer as int)),
        decreases reservations@.len() - outer,
    {
        let instances = &reservations[outer].instances;
        let ghost before = options_view(options@);
        let mut inner: usize = 0;
        assert(options_view(options@) =~= before + instances_in(instances@.take(0)));
        while inner < instances.len()
            invariant
                inner <= instances@.len(),
                options_view(options@) == before + instances_in(instances@.take(inner as int)),
            decreases instances@.len() - inner,
        {
            let instance = &instances[inner];
            proof {
                assert(instances@.take(inner + 1).drop_last() =~= instances@.take(inner as int));
                assert(instances@.take(inner + 1).last() == instances@[inner as int]);
            }
            match &instance.instance_id {
                Some(id) => {
                    let name = name_tag(&instance.tags);
                    let label = instance_label(name.as_str(), id.as_str());
                    let ghost shown = options_view(options@);
                    let ghost earlier = instances_in(instances@.take(inner as int));
                    let added = SelectionOption { identifier: id.clone(), label };
                    options.push(added);
                    proof {
                        assert(instance_option(instances@[inner as int]) == Some(added@));
                        assert(instances_in(instances@.take(inner + 1)) == earlier.push(added@));
                        assert(options_view(options@) =~= shown.push(added@));
                        assert((before + earlier).push(added@) =~= before + earlier.push(added@));
                    }
                },
                None => {},
            }
            inner += 1;
        }
        proof {
            assert(instances@.take(instances@.len() as int) =~= instances@);
            assert(reservations@.take(outer + 1).drop_last() =~= reservations@.take(outer as int));
            assert(reservations@.take(outer + 1).last() == reservations@[outer as int]);
        }
        outer += 1;
    }
    assert(reservations@.take(reservations@.len() as int) =~= reservations@);
    options
}

/// Turns the load balancers that a lookup returned into the options of the
/// destination stage: one for each that has a DNS name.
pub fn load_balancer_options(found: &Vec<LoadBalancerDescription>) -> (options: Vec<
    SelectionOption,
>)
    ensures
        options_view(options@) == load_balancers_in(found@),
{
    let mut options: Vec<SelectionOption> = Vec::new();
    let mut position: usize = 0;
    assert(options_view(options@) =~= load_balancers_in(found@.take(0)));
    while position < found.len()
        invariant
            position <= found@.len(),
            options_view(options@) == load_balancers_in(found@.take(position as int)),
        decreases found@.len() - position,
    {
        let balancer = &found[position];
        proof {
            assert(found@.take(position + 1).drop_last() =~= found@.take(position as int));
            assert(found@.take(position + 1).last() == found@[position as int]);
        }
        match &balancer.dns_name {
            Some(dns) => {
                let label = match &balancer.load_balancer_name {
                    Some(name) => name.clone(),
                    None => dns.clone(),
                };
                options.push(SelectionOption { identifier: dns.clone(), label });
                assert(options_view(options@) =~= load_balancers_in(found@.take(position + 1)));
            },
            None => {},
        }
        position += 1;
    }
    assert(found@.take(found@.len() as int) =~= found@);
    options
}

/// Turns the cluster endpoints that a lookup returned into the options of
/// the destination stage: one for each description that has an endpoint.
pub fn cluster_endpoint_options(found: &Vec<ClusterEndpointDescription>) -> (options: Vec<
    SelectionOption,
>)
    ensures
        options_view(options@) == cluster_endpoints_in(found@),
{
    let mut options: Vec<SelectionOption> = Vec::new();
    let mut position: usize = 0;
    assert(options_view(options@) =~= cluster_endpoints_in(found@.take(0)));
    while position < found.len()
        invariant
            position <= found@.len(),
            options_view(options@) == cluster_endpoints_in(found@.take(position as int)),
        decreases found@.len() - position,
    {
        proof {
            assert(found@.take(position + 1).drop_last() =~= found@.take(position as int));
            assert(found@.take(position + 1).last() == found@[position as int]);
        }
        match &found[position].endpoint {
            Some(endpoint) => {
                options.push(
                    SelectionOption { identifier: endpoint.clone(), label: endpoint.clone() },
                );
                assert(options_view(options@) =~= cluster_endpoints_in(found@.take(position + 1)));
            },
            None => {},
        }
        position += 1;
    }
    assert(found@.take(found@.len() as int) =~= found@);
    options
}

} // verus!
