use porwarder::discovery::{
    cluster_endpoint_options, instance_label, instance_options, load_balancer_options, name_tag,
    ClusterEndpointDescription, InstanceDescription, LoadBalancerDescription, Reservation, Tag,
};
use porwarder::porwarder::SelectionOption;

fn tag(key: Option<&str>, value: Option<&str>) -> Tag {
    Tag { key: key.map(|k| k.to_string()), value: value.map(|v| v.to_string()) }
}

fn option(identifier: &str, label: &str) -> SelectionOption {
    SelectionOption { identifier: identifier.to_string(), label: label.to_string() }
}

#[test]
fn name_tag_takes_the_first_name() {
    let tags = vec![
        tag(Some("Team"), Some("core")),
        tag(None, Some("stray")),
        tag(Some("Name"), Some("web")),
        tag(Some("Name"), Some("other")),
    ];
    assert_eq!(name_tag(&tags), "web");
}

#[test]
fn name_tag_is_empty_without_a_name() {
    assert_eq!(name_tag(&vec![]), "");
    assert_eq!(name_tag(&vec![tag(Some("name"), Some("lower"))]), "");
    assert_eq!(name_tag(&vec![tag(Some("Name"), None)]), "");
}

#[test]
fn instance_label_puts_the_identifier_in_brackets() {
    assert_eq!(instance_label("web", "i-1"), "web (i-1)");
    assert_eq!(instance_label("", "i-2"), " (i-2)");
}

#[test]
fn instance_options_flatten_reservations_in_order() {
    let reservations = vec![
        Reservation {
            instances: vec![
                InstanceDescription {
                    instance_id: Some("i-1".to_string()),
                    tags: vec![tag(Some("Name"), Some("web"))],
                },
                InstanceDescription { instance_id: None, tags: vec![tag(Some("Name"), Some("lost"))] },
            ],
        },
        Reservation { instances: vec![] },
        Reservation {
            instances: vec![InstanceDescription { instance_id: Some("i-2".to_string()), tags: vec![] }],
        },
    ];
    assert_eq!(
        instance_options(&reservations),
        vec![option("i-1", "web (i-1)"), option("i-2", " (i-2)")]
    );
}

#[test]
fn instance_options_of_nothing_are_empty() {
    assert_eq!(instance_options(&vec![]), Vec::<SelectionOption>::new());
}

#[test]
fn load_balancer_label_falls_back_to_the_dns_name() {
    let found = vec![
        LoadBalancerDescription {
            dns_name: Some("a.elb.example".to_string()),
            load_balancer_name: Some("front".to_string()),
        },
        LoadBalancerDescription { dns_name: None, load_balancer_name: Some("ghost".to_string()) },
        LoadBalancerDescription { dns_name: Some("b.elb.example".to_string()), load_balancer_name: None },
    ];
    assert_eq!(
        load_balancer_options(&found),
        vec![option("a.elb.example", "front"), option("b.elb.example", "b.elb.example")]
    );
}

#[test]
fn cluster_endpoints_show_the_endpoint_itself() {
    let found = vec![
        ClusterEndpointDescription { endpoint: Some("db.cluster.example".to_string()) },
        ClusterEndpointDescription { endpoint: None },
        ClusterEndpointDescription { endpoint: Some("ro.cluster.example".to_string()) },
    ];
    assert_eq!(
        cluster_endpoint_options(&found),
        vec![
            option("db.cluster.example", "db.cluster.example"),
            option("ro.cluster.example", "ro.cluster.example")
        ]
    );
}
