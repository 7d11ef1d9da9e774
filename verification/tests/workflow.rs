use porwarder::error::{Field, Tool, WorkflowError};
use porwarder::porwarder::{
    local_port_for, option_labels, redis_servers, valkey_servers, DestinationSource, DestinationType,
    Instance, PortForwarder, PortForwarderBuilder, Profile, SelectionOption, Service,
    StringListSelector,
};
use porwarder::selector::{Key, ScriptedSelector};

fn option(identifier: &str, label: &str) -> SelectionOption {
    SelectionOption { identifier: identifier.to_string(), label: label.to_string() }
}

fn names(items: &[&str]) -> Vec<String> {
    items.iter().map(|s| s.to_string()).collect()
}

fn scripted(keys: Vec<Key>) -> Box<dyn StringListSelector> {
    Box::new(ScriptedSelector::new(keys))
}

fn at_profile(keys: Vec<Key>) -> PortForwarderBuilder<Profile> {
    PortForwarder::builder(scripted(keys)).setup(true, true).unwrap()
}

fn at_instance(keys: Vec<Key>) -> PortForwarderBuilder<Instance> {
    at_profile(keys).profile_chosen(Some((0, "dev".to_string()))).unwrap()
}

fn at_destination_type(keys: Vec<Key>) -> PortForwarderBuilder<DestinationType> {
    at_instance(keys)
        .instance_chosen(&vec![option("i-1", "web (i-1)")], Some((0, "web (i-1)".to_string())))
        .unwrap()
}

/// A picker that always answers with the same index, whatever the list.
struct Stubborn(usize);

impl StringListSelector for Stubborn {
    fn select(&mut self, _title: String, _options: Vec<String>) -> Option<(usize, String)> {
        Some((self.0, "?".to_string()))
    }
}

/// A picker that records what it was asked and chooses the first item.
struct Recording(std::rc::Rc<std::cell::RefCell<Vec<(String, Vec<String>)>>>);

impl StringListSelector for Recording {
    fn select(&mut self, title: String, options: Vec<String>) -> Option<(usize, String)> {
        self.0.borrow_mut().push((title, options.clone()));
        options.first().map(|label| (0, label.clone()))
    }
}

#[test]
fn default_ports_of_the_services() {
    assert_eq!(Service::ApplicationLoadBalancer.default_port(), 443);
    assert_eq!(Service::Postgresql.default_port(), 5432);
    assert_eq!(Service::Redis.default_port(), 6379);
    assert_eq!(Service::Valkey.default_port(), 6379);
}

#[test]
fn only_ports_under_1000_are_shifted() {
    assert_eq!(local_port_for(443), 1443);
    assert_eq!(local_port_for(5432), 5432);
    assert_eq!(local_port_for(6379), 6379);
    assert_eq!(local_port_for(0), 1000);
    assert_eq!(local_port_for(999), 1999);
    assert_eq!(local_port_for(1000), 1000);
    assert_eq!(local_port_for(65535), 65535);
}

#[test]
fn menu_lists_the_four_services_in_order() {
    assert_eq!(
        Service::menu(),
        vec![Service::ApplicationLoadBalancer, Service::Redis, Service::Valkey, Service::Postgresql]
    );
    assert_eq!(
        Service::menu_labels(),
        names(&["ApplicationLoadBalancer", "Redis", "Valkey", "Postgresql"])
    );
}

#[test]
fn service_names() {
    assert_eq!(Service::ApplicationLoadBalancer.name(), "ApplicationLoadBalancer");
    assert_eq!(Service::Postgresql.name(), "Postgresql");
    assert_eq!(Service::Redis.name(), "Redis");
    assert_eq!(Service::Valkey.name(), "Valkey");
}

#[test]
fn new_workflow_has_an_empty_read_only_record() {
    let builder = PortForwarder::builder(scripted(vec![]));
    let record = builder.parameters();
    assert_eq!(record.profile_name(), &None);
    assert_eq!(record.instance_id(), &None);
    assert_eq!(record.service(), None);
    assert_eq!(record.host_name(), &None);
    assert_eq!(record.host_port(), None);
    assert_eq!(record.local_port(), None);
    assert!(record.read_only());
}

#[test]
fn prerequisites_are_the_cli_and_the_plugin() {
    assert_eq!(
        PortForwarderBuilder::prerequisites(),
        vec![Tool::AwsCli, Tool::SessionManagerPlugin]
    );
    assert_eq!(Tool::AwsCli.program(), "aws");
    assert_eq!(Tool::SessionManagerPlugin.program(), "session-manager-plugin");
}

#[test]
fn setup_names_the_missing_tool() {
    let missing_cli = PortForwarder::builder(scripted(vec![])).setup(false, true).err();
    assert_eq!(missing_cli, Some(WorkflowError::PrerequisiteMissing(Tool::AwsCli)));
    let missing_both = PortForwarder::builder(scripted(vec![])).setup(false, false).err();
    assert_eq!(missing_both, Some(WorkflowError::PrerequisiteMissing(Tool::AwsCli)));
    let missing_plugin = PortForwarder::builder(scripted(vec![])).setup(true, false).err();
    assert_eq!(missing_plugin, Some(WorkflowError::PrerequisiteMissing(Tool::SessionManagerPlugin)));
    assert!(PortForwarder::builder(scripted(vec![])).setup(true, true).is_ok());
}

#[test]
fn profile_stage_stores_the_chosen_name() {
    let next = at_profile(vec![Key::Down, Key::Enter]).profile(names(&["dev", "prod"])).unwrap();
    assert_eq!(next.parameters().profile_name(), &Some("prod".to_string()));
    assert_eq!(next.parameters().instance_id(), &None);
}

#[test]
fn profile_stage_without_profiles_is_canceled() {
    let next = at_profile(vec![Key::Enter]).profile(vec![]).err();
    assert_eq!(next, Some(WorkflowError::UserCanceled));
}

#[test]
fn profile_stage_is_canceled_by_escape() {
    let next = at_profile(vec![Key::Escape]).profile(names(&["dev"])).err();
    assert_eq!(next, Some(WorkflowError::UserCanceled));
}

#[test]
fn profile_chosen_stores_the_label_verbatim() {
    let next = at_profile(vec![]).profile_chosen(Some((7, " odd name ".to_string()))).unwrap();
    assert_eq!(next.parameters().profile_name(), &Some(" odd name ".to_string()));
    assert_eq!(at_profile(vec![]).profile_chosen(None).err(), Some(WorkflowError::UserCanceled));
}

#[test]
fn instance_stage_stores_the_identifier_not_the_label() {
    let instances = vec![option("i-1", "web (i-1)"), option("i-2", " (i-2)")];
    let next = at_instance(vec![Key::Up, Key::Enter]).instance(instances).unwrap();
    assert_eq!(next.parameters().instance_id(), &Some("i-2".to_string()));
    assert_eq!(next.parameters().profile_name(), &Some("dev".to_string()));
}

#[test]
fn instance_stage_without_instances_is_canceled() {
    assert_eq!(
        at_instance(vec![Key::Enter]).instance(vec![]).err(),
        Some(WorkflowError::UserCanceled)
    );
}

#[test]
fn instance_chosen_rejects_an_index_outside_the_list() {
    let instances = vec![option("i-1", "web (i-1)")];
    let next = at_instance(vec![]).instance_chosen(&instances, Some((1, "x".to_string()))).err();
    assert_eq!(next, Some(WorkflowError::FieldUnset(Field::InstanceId)));
    let canceled = at_instance(vec![]).instance_chosen(&instances, None).err();
    assert_eq!(canceled, Some(WorkflowError::UserCanceled));
}

#[test]
fn destination_type_stage_derives_the_ports() {
    let expected = [
        (0usize, Service::ApplicationLoadBalancer, 443u16, 1443u16),
        (1, Service::Redis, 6379, 6379),
        (2, Service::Valkey, 6379, 6379),
        (3, Service::Postgresql, 5432, 5432),
    ];
    for (index, service, host_port, local_port) in expected {
        let mut keys = vec![Key::Down; index];
        keys.push(Key::Enter);
        let next = at_destination_type(keys).destination_type().unwrap();
        assert_eq!(next.parameters().service(), Some(service));
        assert_eq!(next.parameters().host_port(), Some(host_port));
        assert_eq!(next.parameters().local_port(), Some(local_port));
        assert_eq!(next.parameters().host_name(), &None);
        assert_eq!(next.chosen_service(), service);
    }
}

#[test]
fn destination_type_chosen_rejects_an_index_outside_the_menu() {
    let next = at_destination_type(vec![]).destination_type_chosen(Some((4, "x".to_string()))).err();
    assert_eq!(next, Some(WorkflowError::FieldUnset(Field::Service)));
    let canceled = at_destination_type(vec![]).destination_type_chosen(None).err();
    assert_eq!(canceled, Some(WorkflowError::UserCanceled));
}

#[test]
fn destination_source_follows_the_service() {
    let expected = [
        (0usize, DestinationSource::LoadBalancers),
        (1, DestinationSource::Fixed),
        (2, DestinationSource::Fixed),
        (3, DestinationSource::DatabaseClusterEndpoints),
    ];
    for (index, source) in expected {
        let at = at_destination_type(vec![])
            .destination_type_chosen(Some((index, String::new())))
            .unwrap();
        assert_eq!(at.destination_source(), source);
    }
}

#[test]
fn cache_services_offer_no_destinations() {
    assert_eq!(redis_servers(), Vec::<SelectionOption>::new());
    assert_eq!(valkey_servers(), Vec::<SelectionOption>::new());
    let at = at_destination_type(vec![Key::Enter])
        .destination_type_chosen(Some((1, String::new())))
        .unwrap();
    let next = at.destination(vec![option("cache.example", "cache")]).err();
    assert_eq!(next, Some(WorkflowError::UserCanceled));
}

#[test]
fn destination_chosen_rejects_an_index_outside_the_list() {
    let at = at_destination_type(vec![])
        .destination_type_chosen(Some((0, String::new())))
        .unwrap();
    let offered = vec![option("a.elb.example", "front")];
    let next = at.destination_chosen(&offered, Some((3, String::new()))).err();
    assert_eq!(next, Some(WorkflowError::FieldUnset(Field::HostName)));
}

#[test]
fn option_labels_are_the_labels_in_order() {
    assert_eq!(
        option_labels(&vec![option("i-1", "web (i-1)"), option("i-2", " (i-2)")]),
        names(&["web (i-1)", " (i-2)"])
    );
}

#[test]
fn full_workflow_fills_all_six_fields() {
    let keys = vec![
        Key::Enter,
        Key::Down,
        Key::Enter,
        Key::Up,
        Key::Enter,
        Key::Down,
        Key::Enter,
    ];
    let record = PortForwarder::builder(scripted(keys))
        .setup(true, true)
        .unwrap()
        .profile(names(&["dev", "prod"]))
        .unwrap()
        .instance(vec![option("i-1", "web (i-1)"), option("i-2", "db (i-2)")])
        .unwrap()
        .destination_type()
        .unwrap()
        .destination(vec![option("rw.cluster.example", "rw"), option("ro.cluster.example", "ro")])
        .unwrap()
        .build()
        .unwrap();
    assert_eq!(record.profile_name(), &Some("dev".to_string()));
    assert_eq!(record.instance_id(), &Some("i-2".to_string()));
    assert_eq!(record.service(), Some(Service::Postgresql));
    assert_eq!(record.host_name(), &Some("ro.cluster.example".to_string()));
    assert_eq!(record.host_port(), Some(5432));
    assert_eq!(record.local_port(), Some(5432));
    assert!(record.read_only());
    assert_eq!(record.validate(), Ok(()));
}

#[test]
fn stages_ask_the_picker_with_their_titles_and_labels() {
    let asked = std::rc::Rc::new(std::cell::RefCell::new(Vec::new()));
    let record = PortForwarder::builder(Box::new(Recording(asked.clone())))
        .setup(true, true)
        .unwrap()
        .profile(names(&["dev"]))
        .unwrap()
        .instance(vec![option("i-1", "web (i-1)")])
        .unwrap()
        .destination_type()
        .unwrap()
        .destination(vec![option("a.elb.example", "front")])
        .unwrap()
        .build()
        .unwrap();
    assert_eq!(record.host_name(), &Some("a.elb.example".to_string()));
    assert_eq!(record.instance_id(), &Some("i-1".to_string()));
    assert_eq!(
        *asked.borrow(),
        vec![
            ("Select Profile".to_string(), names(&["dev"])),
            ("Select EC2 Instance".to_string(), names(&["web (i-1)"])),
            (
                "Select Destination Type".to_string(),
                names(&["ApplicationLoadBalancer", "Redis", "Valkey", "Postgresql"])
            ),
            ("Select Host".to_string(), names(&["front"])),
        ]
    );
}

#[test]
fn a_picker_that_answers_outside_the_list_ends_the_workflow() {
    let next = PortForwarder::builder(Box::new(Stubborn(5)))
        .setup(true, true)
        .unwrap()
        .profile(names(&["dev"]))
        .unwrap()
        .instance(vec![option("i-1", "web (i-1)")])
        .err();
    assert_eq!(next, Some(WorkflowError::FieldUnset(Field::InstanceId)));
}

#[test]
fn validate_names_the_first_missing_field() {
    let start = at_profile(vec![]);
    assert_eq!(
        start.parameters().validate(),
        Err(WorkflowError::FieldUnset(Field::ProfileName))
    );
    let with_profile = at_instance(vec![]);
    assert_eq!(
        with_profile.parameters().validate(),
        Err(WorkflowError::FieldUnset(Field::InstanceId))
    );
    let with_instance = at_destination_type(vec![]);
    assert_eq!(
        with_instance.parameters().validate(),
        Err(WorkflowError::FieldUnset(Field::Service))
    );
    let with_service = at_destination_type(vec![])
        .destination_type_chosen(Some((0, String::new())))
        .unwrap();
    assert_eq!(
        with_service.parameters().validate(),
        Err(WorkflowError::FieldUnset(Field::HostName))
    );
    assert_eq!(
        with_service.parameters().tunnel_command().err(),
        Some(WorkflowError::FieldUnset(Field::HostName))
    );
}

#[test]
fn tunnel_command_of_a_complete_record() {
    let record = at_destination_type(vec![])
        .destination_type_chosen(Some((0, String::new())))
        .unwrap()
        .destination_chosen(&vec![option("a.elb.example", "front")], Some((0, String::new())))
        .unwrap()
        .build()
        .unwrap();
    let command = record.tunnel_command().unwrap();
    let document =
        "{\"host\":[\"a.elb.example\"],\"portNumber\":[\"443\"],\"localPortNumber\":[\"1443\"]}";
    assert_eq!(command.program, "aws");
    assert_eq!(
        command.arguments,
        names(&[
            "--profile",
            "dev",
            "ssm",
            "start-session",
            "--target",
            "i-1",
            "--document-name",
            "AWS-StartPortForwardingSessionToRemoteHost",
            "--parameters",
            document,
        ])
    );
    assert_eq!(
        command.command_line,
        format!(
            "aws --profile dev ssm start-session --target i-1 --document-name AWS-StartPortForwardingSessionToRemoteHost --parameters '{}'",
            document
        )
    );
}

#[test]
fn valkey_without_destinations_ends_as_canceled() {
    let keys = vec![Key::Down, Key::Enter, Key::Enter, Key::Down, Key::Down, Key::Enter, Key::Enter];
    let at_type = PortForwarder::builder(scripted(keys))
        .setup(true, true)
        .unwrap()
        .profile(names(&["dev", "prod"]))
        .unwrap()
        .instance(vec![option("i-1", "web")])
        .unwrap();
    assert_eq!(at_type.parameters().profile_name(), &Some("prod".to_string()));
    assert_eq!(at_type.parameters().instance_id(), &Some("i-1".to_string()));
    let at_destination = at_type.destination_type().unwrap();
    assert_eq!(at_destination.parameters().service(), Some(Service::Valkey));
    assert_eq!(at_destination.parameters().host_port(), Some(6379));
    assert_eq!(at_destination.parameters().local_port(), Some(6379));
    assert_eq!(at_destination.destination_source(), DestinationSource::Fixed);
    let ended = at_destination.destination(valkey_servers()).err();
    assert_eq!(ended, Some(WorkflowError::UserCanceled));
}

#[test]
fn messages_of_the_errors() {
    assert_eq!(
        WorkflowError::PrerequisiteMissing(Tool::AwsCli).message(),
        "aws cli is not installed. Please install it before running this program."
    );
    assert_eq!(
        WorkflowError::PrerequisiteMissing(Tool::SessionManagerPlugin).message(),
        "session-manager-plugin is not installed. Please install it before running this program."
    );
    assert_eq!(WorkflowError::UserCanceled.message(), "canceled by user");
    assert_eq!(WorkflowError::FieldUnset(Field::ProfileName).message(), "profile name is not set");
    assert_eq!(WorkflowError::FieldUnset(Field::InstanceId).message(), "instance id is not set");
    assert_eq!(WorkflowError::FieldUnset(Field::Service).message(), "destination type is empty");
    assert_eq!(WorkflowError::FieldUnset(Field::HostName).message(), "host name is not set");
    assert_eq!(WorkflowError::FieldUnset(Field::HostPort).message(), "host port is not set");
    assert_eq!(WorkflowError::FieldUnset(Field::LocalPort).message(), "local port is not set");
    assert_eq!(
        WorkflowError::ProviderFailure("credentials expired".to_string()).message(),
        "credentials expired"
    );
    assert_eq!(
        WorkflowError::SubprocessFailure("aws --profile dev".to_string()).message(),
        "aws --profile dev"
    );
}
