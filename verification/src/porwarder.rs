//! The selection workflow: a parameter record that is filled stage by stage,
//! in a fixed order, and the tunnel command that a complete record gives.
use crate::error::{Field, Tool, WorkflowError};
use crate::text::{decimal, decimal_string};
use vstd::prelude::*;
use vstd::string::*;

verus! {

/// The kind of service at the far end of the tunnel.
#[derive(Clone, Copy, Debug, PartialEq, Eq, Structural)]
pub enum Service {
    ApplicationLoadBalancer,
    Postgresql,
    Redis,
    Valkey,
}

/// The local port that forwards to `port`: the same number, but moved up by
/// 1000 where it is below 1000.
pub open spec fn local_port_of(port: u16) -> u16 {
    if port >= 1000 {
        port
    } else {
        (port + 1000) as u16
    }
}

/// Computes the local port for a remote port.
pub fn local_port_for(port: u16) -> (local: u16)
    ensures
        local == local_port_of(port),
        port >= 1000 ==> local == port,
        port < 1000 ==> local == port + 1000,
{
    if port < 1000 {
        port + 1000
    } else {
        port
    }
}

impl Service {
    /// The port on which a service of this kind listens.
    pub open spec fn spec_default_port(self) -> u16 {
        match self {
            Service::ApplicationLoadBalancer => 443,
            Service::Postgresql => 5432,
            Service::Redis => 6379,
            Service::Valkey => 6379,
        }
    }

    /// The name under which the menu shows this kind.
    pub open spec fn name_spec(self) -> Seq<char> {
        match self {
            Service::ApplicationLoadBalancer => "ApplicationLoadBalancer"@,
            Service::Postgresql => "Postgresql"@,
            Service::Redis => "Redis"@,
            Service::Valkey => "Valkey"@,
        }
    }

    /// The kinds in the order of the menu.
    pub open spec fn menu_spec() -> Seq<Service> {
        seq![
            Service::ApplicationLoadBalancer,
            Service::Redis,
            Service::Valkey,
            Service::Postgresql,
        ]
    }

    pub fn default_port(&self) -> (port: u16)
        ensures
            port == self.spec_default_port(),
    {
        match self {
            Service::ApplicationLoadBalancer => 443,
            Service::Postgresql => 5432,
            Service::Redis => 6379,
            Service::Valkey => 6379,
        }
    }

    pub fn name(&self) -> (text: String)
        ensures
            text@ == self.name_spec(),
    {
        match self {
            Service::ApplicationLoadBalancer => String::from_str("ApplicationLoadBalancer"),
            Service::Postgresql => String::from_str("Postgresql"),
            Service::Redis => String::from_str("Redis"),
            Service::Valkey => String::from_str("Valkey"),
        }
    }

    pub fn menu() -> (kinds: Vec<Service>)
        ensures
            kinds@ == Service::menu_spec(),
    {
        let mut kinds: Vec<Service> = Vec::new();
        kinds.push(Service::ApplicationLoadBalancer);
        kinds.push(Service::Redis);
        kinds.push(Service::Valkey);
        kinds.push(Service::Postgresql);
        assert(kinds@ =~= Service::menu_spec());
        kinds
    }

    /// The rows of the menu: the names of the kinds, in the menu's order.
    pub fn menu_labels() -> (labels: Vec<String>)
        ensures
            labels@.len() == 4,
            forall|i: int|
                0 <= i < 4 ==> (#[trigger] labels@[i])@ == Service::menu_spec()[i].name_spec(),
    {
        let mut labels: Vec<String> = Vec::new();
        labels.push(Service::ApplicationLoadBalancer.name());
        labels.push(Service::Redis.name());
        labels.push(Service::Valkey.name());
        labels.push(Service::Postgresql.name());
        labels
    }
}

/// The local ports of the four kinds: only the load balancer's port is below
/// 1000 and moves.
pub proof fn lemma_local_ports()
    ensures
        local_port_of(Service::ApplicationLoadBalancer.spec_default_port()) == 1443,
        local_port_of(Service::Postgresql.spec_default_port()) == 5432,
        local_port_of(Service::Redis.spec_default_port()) == 6379,
        local_port_of(Service::Valkey.spec_default_port()) == 6379,
{
}

/// One row that a picker can offer: what is stored when it is chosen, and
/// what the operator sees.
#[derive(Clone, Debug, PartialEq, Eq)]
pub struct SelectionOption {
    pub identifier: String,
    pub label: String,
}

/// A selection option as texts.
pub struct OptionText {
    pub identifier: Seq<char>,
    pub label: Seq<char>,
}

impl View for SelectionOption {
    type V = OptionText;

    open spec fn view(&self) -> OptionText {
        OptionText { identifier: self.identifier@, label: self.label@ }
    }
}

/// A picker of one item out of a list of labels.
pub trait StringListSelector {
    /// Lets the operator choose one of `options`. Returns the index of the
    /// chosen item with its label, or nothing where the operator canceled.
    /// An empty list is canceled at once.
    fn select(&mut self, title: String, options: Vec<String>) -> (choice: Option<(usize, String)>)
        ensures
            options@.len() == 0 ==> choice is None,
            choice matches Some((index, label)) ==> index < options@.len() && label@
                == options@[index as int]@,
    ;
}

/// What the record of a workflow holds, as texts and numbers.
pub struct Parameters {
    pub profile_name: Option<Seq<char>>,
    pub instance_id: Option<Seq<char>>,
    pub service: Option<Service>,
    pub host_name: Option<Seq<char>>,
    pub host_port: Option<u16>,
    pub local_port: Option<u16>,
    pub read_only: bool,
}

impl Parameters {
    /// The record before any stage has run.
    pub open spec fn empty() -> Parameters {
        Parameters {
            profile_name: None,
            instance_id: None,
            service: None,
            host_name: None,
            host_port: None,
            local_port: None,
            read_only: true,
        }
    }

    pub open spec fn with_profile(self, name: Seq<char>) -> Parameters {
        Parameters { profile_name: Some(name), ..self }
    }

    pub open spec fn with_instance(self, id: Seq<char>) -> Parameters {
        Parameters { instance_id: Some(id), ..self }
    }

    /// Stores the kind of service, and with it the two ports.
    pub open spec fn with_service(self, service: Service) -> Parameters {
        Parameters {
            service: Some(service),
            host_port: Some(service.spec_default_port()),
            local_port: Some(local_port_of(service.spec_default_port())),
            ..self
        }
    }

    pub open spec fn with_host(self, host: Seq<char>) -> Parameters {
        Parameters { host_name: Some(host), ..self }
    }

    /// All six fields are set.
    pub open spec fn complete(self) -> bool {
        &&& self.profile_name is Some
        &&& self.instance_id is Some
        &&& self.service is Some
        &&& self.host_name is Some
        &&& self.host_port is Some
        &&& self.local_port is Some
    }

    /// The first field, in the order of the stages, that is not set.
    pub open spec fn first_unset(self) -> Option<Field> {
        if self.profile_name is None {
            Some(Field::ProfileName)
        } else if self.instance_id is None {
            Some(Field::InstanceId)
        } else if self.service is None {
            Some(Field::Service)
        } else if self.host_name is None {
            Some(Field::HostName)
        } else if self.host_port is None {
            Some(Field::HostPort)
        } else if self.local_port is None {
            Some(Field::LocalPort)
        } else {
            None
        }
    }

    /// The record as it stands after `stages` of the four selections:
    /// exactly the fields of those stages are set, the ports are those of
    /// the service, and the record is still read-only.
    pub open spec fn filled(self, stages: nat) -> bool {
        &&& self.read_only
        &&& (self.profile_name is Some <==> stages >= 1)
        &&& (self.instance_id is Some <==> stages >= 2)
        &&& (self.service is Some <==> stages >= 3)
        &&& (self.host_name is Some <==> stages >= 4)
        &&& match self.service {
            Some(service) => self.host_port == Some(service.spec_default_port())
                && self.local_port == Some(local_port_of(service.spec_default_port())),
            None => self.host_port is None && self.local_port is None,
        }
    }

    /// The JSON document that tells the session which host and ports to
    /// join.
    pub open spec fn session_parameters(self) -> Seq<char>
        recommends
            self.complete(),
    {
        "{\"host\":[\""@ + self.host_name.unwrap() + "\"],\"portNumber\":[\""@ + decimal(
            self.host_port.unwrap() as nat,
        ) + "\"],\"localPortNumber\":[\""@ + decimal(self.local_port.unwrap() as nat) + "\"]}"@
    }

    /// The arguments with which the AWS CLI is started.
    pub open spec fn arguments(self) -> Seq<Seq<char>>
        recommends
            self.complete(),
    {
        seq![
            "--profile"@,
            self.profile_name.unwrap(),
            "ssm"@,
            "start-session"@,
            "--target"@,
            self.instance_id.unwrap(),
            "--document-name"@,
            "AWS-StartPortForwardingSessionToRemoteHost"@,
            "--parameters"@,
            self.session_parameters(),
        ]
    }

    /// The command as one line, as it is shown to the operator.
    pub open spec fn command_line(self) -> Seq<char>
        recommends
            self.complete(),
    {
        "aws --profile "@ + self.profile_name.unwrap() + " ssm start-session --target "@
            + self.instance_id.unwrap()
            + " --document-name AWS-StartPortForwardingSessionToRemoteHost --parameters '"@
            + self.session_parameters() + "'"@
    }
}

/// A record lacks a field exactly when it is not complete.
pub proof fn lemma_first_unset_iff_incomplete(record: Parameters)
    ensures
        record.first_unset() is Some <==> !record.complete(),
{
}

/// A record that has gone through the four selections in order is complete,
/// whatever was chosen at each.
pub proof fn lemma_all_stages_complete(
    profile: Seq<char>,
    instance: Seq<char>,
    service: Service,
    host: Seq<char>,
)
    ensures
        Parameters::empty().with_profile(profile).with_instance(instance).with_service(
            service,
        ).with_host(host).complete(),
        Parameters::empty().with_profile(profile).with_instance(instance).with_service(
            service,
        ).with_host(host).filled(4),
{
}

/// No stage clears or changes a field that an earlier stage has set.
pub proof fn lemma_stages_keep_fields(record: Parameters, text: Seq<char>, service: Service)
    ensures
        record.with_instance(text).profile_name == record.profile_name,
        record.with_service(service).profile_name == record.profile_name,
        record.with_service(service).instance_id == record.instance_id,
        record.with_host(text).profile_name == record.profile_name,
        record.with_host(text).instance_id == record.instance_id,
        record.with_host(text).service == record.service,
        record.with_host(text).host_port == record.host_port,
        record.with_host(text).local_port == record.local_port,
{
}

/// An optional text, seen as a sequence of characters.
pub open spec fn text_of(text: Option<String>) -> Option<Seq<char>> {
    match text {
        Some(t) => Some(t@),
        None => None,
    }
}

/// The texts of a list of strings.
pub open spec fn texts_of(list: Seq<String>) -> Seq<Seq<char>> {
    list.map_values(|t: String| t@)
}

/// The command that opens the tunnel.
#[derive(Clone, Debug, PartialEq, Eq)]
pub struct TunnelCommand {
    /// The program to start.
    pub program: String,
    /// Its arguments, one per element.
    pub arguments: Vec<String>,
    /// The whole command as one line, for the operator to read.
    pub command_line: String,
}

/// The parameter record: what the stages of a workflow have chosen so far.
#[derive(Debug)]
pub struct PortForwarder {
    profile_name: Option<String>,
    instance_id: Option<String>,
    service: Option<Service>,
    host_name: Option<String>,
    host_port: Option<u16>,
    local_port: Option<u16>,
    read_only: bool,
}

impl View for PortForwarder {
    type V = Parameters;

    closed spec fn view(&self) -> Parameters {
        Parameters {
            profile_name: text_of(self.profile_name),
            instance_id: text_of(self.instance_id),
            service: self.service,
            host_name: text_of(self.host_name),
            host_port: self.host_port,
            local_port: self.local_port,
            read_only: self.read_only,
        }
    }
}

/// Where the destinations that the operator can choose from come from.
#[derive(Clone, Copy, Debug, PartialEq, Eq, Structural)]
pub enum DestinationSource {
    /// The load balancers of the account.
    LoadBalancers,
    /// The endpoints of the account's database clusters.
    DatabaseClusterEndpoints,
    /// A fixed list that the workflow holds itself.
    Fixed,
}

/// The source that is asked for destinations of a kind of service.
pub open spec fn source_of(service: Service) -> DestinationSource {
    match service {
        Service::ApplicationLoadBalancer => DestinationSource::LoadBalancers,
        Service::Postgresql => DestinationSource::DatabaseClusterEndpoints,
        Service::Redis => DestinationSource::Fixed,
        Service::Valkey => DestinationSource::Fixed,
    }
}

/// The destinations that are offered for a kind of service, where `found`
/// is what the lookup returned: for a cache service the list is empty.
pub open spec fn offered_destinations(service: Service, found: Seq<SelectionOption>) -> Seq<
    SelectionOption,
> {
    if source_of(service) == DestinationSource::Fixed {
        Seq::empty()
    } else {
        found
    }
}

impl PortForwarder {
    /// Starts a workflow on an empty record, with `selector` as its picker.
    pub fn builder(selector: Box<dyn StringListSelector>) -> (start: PortForwarderBuilder<Start>)
        ensures
            start.record() == Parameters::empty(),
    {
        PortForwarderBuilder {
            port_forwarder: PortForwarder {
                profile_name: None,
                instance_id: None,
                service: None,
                host_name: None,
                host_port: None,
                local_port: None,
                read_only: true,
            },
            selector,
            marker: std::marker::PhantomData,
        }
    }

    pub fn profile_name(&self) -> (name: &Option<String>)
        ensures
            text_of(*name) == self@.profile_name,
    {
        &self.profile_name
    }

    pub fn instance_id(&self) -> (id: &Option<String>)
        ensures
            text_of(*id) == self@.instance_id,
    {
        &self.instance_id
    }

    pub fn service(&self) -> (service: Option<Service>)
        ensures
            service == self@.service,
    {
        self.service
    }

    pub fn host_name(&self) -> (host: &Option<String>)
        ensures
            text_of(*host) == self@.host_name,
    {
        &self.host_name
    }

    pub fn host_port(&self) -> (port: Option<u16>)
        ensures
            port == self@.host_port,
    {
        self.host_port
    }

    pub fn local_port(&self) -> (port: Option<u16>)
        ensures
            port == self@.local_port,
    {
        self.local_port
    }

    pub fn read_only(&self) -> (flag: bool)
        ensures
            flag == self@.read_only,
    {
        self.read_only
    }

    /// Checks that every field is set, and names the first that is not.
    pub fn validate(&self) -> (checked: Result<(), WorkflowError>)
        ensures
            checked is Ok <==> self@.complete(),
            checked matches Err(e) ==> self@.first_unset() is Some && e == WorkflowError::FieldUnset(
                self@.first_unset().unwrap(),
            ),
    {
        if self.profile_name.is_none() {
            Err(WorkflowError::FieldUnset(Field::ProfileName))
        } else if self.instance_id.is_none() {
            Err(WorkflowError::FieldUnset(Field::InstanceId))
        } else if self.service.is_none() {
            Err(WorkflowError::FieldUnset(Field::Service))
        } else if self.host_name.is_none() {
            Err(WorkflowError::FieldUnset(Field::HostName))
        } else if self.host_port.is_none() {
            Err(WorkflowError::FieldUnset(Field::HostPort))
        } else if self.local_port.is_none() {
            Err(WorkflowError::FieldUnset(Field::LocalPort))
        } else {
            Ok(())
        }
    }

    /// The command that opens the tunnel which this record describes. A
    /// record that lacks a field gives no command.
    pub fn tunnel_command(&self) -> (command: Result<TunnelCommand, WorkflowError>)
        ensures
            command is Ok <==> self@.complete(),
            command matches Err(e) ==> self@.first_unset() is Some && e
                == WorkflowError::FieldUnset(self@.first_unset().unwrap()),
            command matches Ok(c) ==> c.program@ == Tool::AwsCli.program_spec() && texts_of(
                c.arguments@,
            ) == self@.arguments() && c.command_line@ == self@.command_line(),
    {
        match self.validate() {
            Err(e) => Err(e),
            Ok(()) => {
                let profile = self.profile_name.as_ref().unwrap();
                let instance = self.instance_id.as_ref().unwrap();
                let host = self.host_name.as_ref().unwrap();
                let host_port = decimal_string(self.host_port.unwrap() as u64);
                let local_port = decimal_string(self.local_port.unwrap() as u64);
                let mut document = String::from_str("{\"host\":[\"");
                document.append(host.as_str());
                document.append("\"],\"portNumber\":[\"");
                document.append(host_port.as_str());
                document.append("\"],\"localPortNumber\":[\"");
                document.append(local_port.as_str());
                document.append("\"]}");
                let mut line = String::from_str("aws --profile ");
                line.append(profile.as_str());
                line.append(" ssm start-session --target ");
                line.append(instance.as_str());
                line.append(
                    " --document-name AWS-StartPortForwardingSessionToRemoteHost --parameters '",
                );
                line.append(document.as_str());
                line.append("'");
                let mut arguments: Vec<String> = Vec::new();
                arguments.push(String::from_str("--profile"));
                arguments.push(profile.clone());
                arguments.push(String::from_str("ssm"));
                arguments.push(String::from_str("start-session"));
                arguments.push(String::from_str("--target"));
                arguments.push(instance.clone());
                arguments.push(String::from_str("--document-name"));
                arguments.push(String::from_str("AWS-StartPortForwardingSessionToRemoteHost"));
                arguments.push(String::from_str("--parameters"));
                arguments.push(document);
                assert(texts_of(arguments@) =~= self@.arguments());
                Ok(TunnelCommand { program: Tool::AwsCli.program(), arguments, command_line: line })
            },
        }
    }
}

/// A stage of the workflow, as a type. A workflow handle carries the stage
/// at which it stands, so that a stage can only be run on the handle that
/// the stage before it returned.
pub trait BuilderState {
    /// What the record holds when the workflow stands at this stage.
    spec fn populated(record: Parameters) -> bool;
}

/// Nothing has been checked or chosen yet.
pub struct Start;

/// The tools are present; the profile is chosen next.
pub struct Profile;

/// The instance is chosen next.
pub struct Instance;

/// The kind of service is chosen next.
pub struct DestinationType;

/// The host is chosen next.
pub struct Destination;

/// Every stage has run.
pub struct Ready;

impl BuilderState for Start {
    open spec fn populated(record: Parameters) -> bool {
        record.filled(0)
    }
}

impl BuilderState for Profile {
    open spec fn populated(record: Parameters) -> bool {
        record.filled(0)
    }
}

impl BuilderState for Instance {
    open spec fn populated(record: Parameters) -> bool {
        record.filled(1)
    }
}

impl BuilderState for DestinationType {
    open spec fn populated(record: Parameters) -> bool {
        record.filled(2)
    }
}

impl BuilderState for Destination {
    open spec fn populated(record: Parameters) -> bool {
        record.filled(3)
    }
}

impl BuilderState for Ready {
    open spec fn populated(record: Parameters) -> bool {
        record.filled(4)
    }
}

/// A workflow handle at stage `S`: the record so far, and the picker.
pub struct PortForwarderBuilder<S: BuilderState = Start> {
    port_forwarder: PortForwarder,
    selector: Box<dyn StringListSelector>,
    marker: std::marker::PhantomData<S>,
}

/// What a stage returned, with the record in place of the handle.
pub open spec fn reached<S: BuilderState>(
    next: Result<PortForwarderBuilder<S>, WorkflowError>,
) -> Result<Parameters, WorkflowError> {
    match next {
        Ok(builder) => Ok(builder.record()),
        Err(e) => Err(e),
    }
}

/// What the profile stage does with the picker's answer.
pub open spec fn profile_outcome(record: Parameters, choice: Option<(usize, String)>) -> Result<
    Parameters,
    WorkflowError,
> {
    match choice {
        None => Err(WorkflowError::UserCanceled),
        Some((_, name)) => Ok(record.with_profile(name@)),
    }
}

/// What the instance stage does with the picker's answer: the identifier
/// of the chosen option is stored, not its label.
pub open spec fn instance_outcome(
    record: Parameters,
    instances: Seq<SelectionOption>,
    choice: Option<(usize, String)>,
) -> Result<Parameters, WorkflowError> {
    match choice {
        None => Err(WorkflowError::UserCanceled),
        Some((index, _)) => if index < instances.len() {
            Ok(record.with_instance(instances[index as int].identifier@))
        } else {
            Err(WorkflowError::FieldUnset(Field::InstanceId))
        },
    }
}

/// What the destination-type stage does with the picker's answer.
pub open spec fn destination_type_outcome(
    record: Parameters,
    choice: Option<(usize, String)>,
) -> Result<Parameters, WorkflowError> {
    match choice {
        None => Err(WorkflowError::UserCanceled),
        Some((index, _)) => if index < Service::menu_spec().len() {
            Ok(record.with_service(Service::menu_spec()[index as int]))
        } else {
            Err(WorkflowError::FieldUnset(Field::Service))
        },
    }
}

/// What the destination stage does with the picker's answer: the endpoint
/// of the chosen option is stored, not its label.
pub open spec fn destination_outcome(
    record: Parameters,
    offered: Seq<SelectionOption>,
    choice: Option<(usize, String)>,
) -> Result<Parameters, WorkflowError> {
    match choice {
        None => Err(WorkflowError::UserCanceled),
        Some((index, _)) => if index < offered.len() {
            Ok(record.with_host(offered[index as int].identifier@))
        } else {
            Err(WorkflowError::FieldUnset(Field::HostName))
        },
    }
}

/// The labels of a list of options, in order.
pub fn option_labels(options: &Vec<SelectionOption>) -> (labels: Vec<String>)
    ensures
        labels@.len() == options@.len(),
        forall|i: int| 0 <= i < options@.len() ==> (#[trigger] labels@[i])@ == options@[i].label@,
{
    let mut labels: Vec<String> = Vec::new();
    let mut position: usize = 0;
    while position < options.len()
        invariant
            position <= options@.len(),
            labels@.len() == position,
            forall|i: int| 0 <= i < position ==> (#[trigger] labels@[i])@ == options@[i].label@,
        decreases options@.len() - position,
    {
        labels.push(options[position].label.clone());
        position += 1;
    }
    labels
}

/// The destinations that the workflow offers for Redis: none so far.
pub fn redis_servers() -> (servers: Vec<SelectionOption>)
    ensures
        servers@.len() == 0,
{
    Vec::new()
}

/// The destinations that the workflow offers for Valkey: none so far.
pub fn valkey_servers() -> (servers: Vec<SelectionOption>)
    ensures
        servers@.len() == 0,
{
    Vec::new()
}

impl<S: BuilderState> PortForwarderBuilder<S> {
    #[verifier::type_invariant]
    spec fn at_stage(self) -> bool {
        S::populated(self.port_forwarder@)
    }

    /// The record as the stages so far have left it.
    pub closed spec fn record(self) -> Parameters {
        self.port_forwarder@
    }

    /// The record so far. It holds what the stage of this handle says.
    pub fn parameters(&self) -> (record: &PortForwarder)
        ensures
            record@ == self.record(),
            S::populated(record@),
    {
        proof {
            use_type_invariant(self);
        }
        &self.port_forwarder
    }
}

impl PortForwarderBuilder<Start> {
    /// The tools whose presence is checked before the first stage, in the
    /// order in which they are checked.
    pub fn prerequisites() -> (tools: Vec<Tool>)
        ensures
            tools@ == seq![Tool::AwsCli, Tool::SessionManagerPlugin],
    {
        let mut tools: Vec<Tool> = Vec::new();
        tools.push(Tool::AwsCli);
        tools.push(Tool::SessionManagerPlugin);
        assert(tools@ =~= seq![Tool::AwsCli, Tool::SessionManagerPlugin]);
        tools
    }

    /// Opens the workflow once the presence of the two tools has been
    /// checked. The first tool that is absent stops it.
    pub fn setup(self, aws_cli_present: bool, session_manager_plugin_present: bool) -> (next: Result<
        PortForwarderBuilder<Profile>,
        WorkflowError,
    >)
        ensures
            reached(next) == if !aws_cli_present {
                Err::<Parameters, WorkflowError>(WorkflowError::PrerequisiteMissing(Tool::AwsCli))
            } else if !session_manager_plugin_present {
                Err(WorkflowError::PrerequisiteMissing(Tool::SessionManagerPlugin))
            } else {
                Ok(self.record())
            },
    {
        proof {
            use_type_invariant(&self);
        }
        if !aws_cli_present {
            Err(WorkflowError::PrerequisiteMissing(Tool::AwsCli))
        } else if !session_manager_plugin_present {
            Err(WorkflowError::PrerequisiteMissing(Tool::SessionManagerPlugin))
        } else {
            Ok(
                PortForwarderBuilder {
                    port_forwarder: self.port_forwarder,
                    selector: self.selector,
                    marker: std::marker::PhantomData,
                },
            )
        }
    }
}

impl PortForwarderBuilder<Profile> {
    /// Lets the operator choose one of the profiles and stores its name.
    /// Where the operator cancels, or no profile exists, the workflow ends
    /// as canceled.
    pub fn profile(self, available_profiles: Vec<String>) -> (next: Result<
        PortForwarderBuilder<Instance>,
        WorkflowError,
    >)
        ensures
            available_profiles@.len() == 0 ==> reached(next) == Err::<Parameters, WorkflowError>(
                WorkflowError::UserCanceled,
            ),
            next matches Err(e) ==> e == WorkflowError::UserCanceled,
            next matches Ok(builder) ==> exists|i: int|
                0 <= i < available_profiles@.len() && builder.record() == self.record().with_profile(
                    #[trigger] available_profiles@[i]@,
                ),
    {
        proof {
            use_type_invariant(&self);
        }
        let PortForwarderBuilder { port_forwarder, selector, marker } = self;
        let mut selector = selector;
        let choice = selector.select(String::from_str("Select Profile"), available_profiles);
        let builder = PortForwarderBuilder::<Profile> { port_forwarder, selector, marker };
        builder.profile_chosen(choice)
    }

    /// Stores the profile that the picker returned, or ends the workflow
    /// where it returned none.
    pub fn profile_chosen(self, choice: Option<(usize, String)>) -> (next: Result<
        PortForwarderBuilder<Instance>,
        WorkflowError,
    >)
        ensures
            reached(next) == profile_outcome(self.record(), choice),
    {
        proof {
            use_type_invariant(&self);
        }
        match choice {
            None => Err(WorkflowError::UserCanceled),
            Some((_, name)) => {
                let PortForwarderBuilder { port_forwarder, selector, marker: _ } = self;
                let PortForwarder {
                    profile_name: _,
                    instance_id,
                    service,
                    host_name,
                    host_port,
                    local_port,
                    read_only,
                } = port_forwarder;
                Ok(
                    PortForwarderBuilder {
                        port_forwarder: PortForwarder {
                            profile_name: Some(name),
                            instance_id,
                            service,
                            host_name,
                            host_port,
                            local_port,
                            read_only,
                        },
                        selector,
                        marker: std::marker::PhantomData,
                    },
                )
            },
        }
    }
}

impl PortForwarderBuilder<Instance> {
    /// Lets the operator choose one of the instances and stores its
    /// identifier. Where the operator cancels, or there is no instance, the
    /// workflow ends as canceled.
    pub fn instance(self, instances: Vec<SelectionOption>) -> (next: Result<
        PortForwarderBuilder<DestinationType>,
        WorkflowError,
    >)
        ensures
            instances@.len() == 0 ==> reached(next) == Err::<Parameters, WorkflowError>(
                WorkflowError::UserCanceled,
            ),
            next matches Err(e) ==> e == WorkflowError::UserCanceled,
            next matches Ok(builder) ==> exists|i: int|
                0 <= i < instances@.len() && builder.record() == self.record().with_instance(
                    (#[trigger] instances@[i]).identifier@,
                ),
    {
        proof {
            use_type_invariant(&self);
        }
        let labels = option_labels(&instances);
        let PortForwarderBuilder { port_forwarder, selector, marker } = self;
        let mut selector = selector;
        let choice = selector.select(String::from_str("Select EC2 Instance"), labels);
        let builder = PortForwarderBuilder::<Instance> { port_forwarder, selector, marker };
        builder.instance_chosen(&instances, choice)
    }

    /// Stores the identifier of the instance that the picker returned, or
    /// ends the workflow where it returned none. An index that is not in
    /// the list ends it too: the field would stay unset.
    pub fn instance_chosen(
        self,
        instances: &Vec<SelectionOption>,
        choice: Option<(usize, String)>,
    ) -> (next: Result<PortForwarderBuilder<DestinationType>, WorkflowError>)
        ensures
            reached(next) == instance_outcome(self.record(), instances@, choice),
    {
        proof {
            use_type_invariant(&self);
        }
        match choice {
            None => Err(WorkflowError::UserCanceled),
            Some((index, _)) => {
                if index < instances.len() {
                    let id = instances[index].identifier.clone();
                    let PortForwarderBuilder { port_forwarder, selector, marker: _ } = self;
                    let PortForwarder {
                        profile_name,
                        instance_id: _,
                        service,
                        host_name,
                        host_port,
                        local_port,
                        read_only,
                    } = port_forwarder;
                    Ok(
                        PortForwarderBuilder {
                            port_forwarder: PortForwarder {
                                profile_name,
                                instance_id: Some(id),
                                service,
                                host_name,
                                host_port,
                                local_port,
                                read_only,
                            },
                            selector,
                            marker: std::marker::PhantomData,
                        },
                    )
                } else {
                    Err(WorkflowError::FieldUnset(Field::InstanceId))
                }
            },
        }
    }
}

impl PortForwarderBuilder<DestinationType> {
    /// Lets the operator choose the kind of service from the menu, and
    /// stores it with the two ports that follow from it.
    pub fn destination_type(self) -> (next: Result<
        PortForwarderBuilder<Destination>,
        WorkflowError,
    >)
        ensures
            next matches Err(e) ==> e == WorkflowError::UserCanceled,
            next matches Ok(builder) ==> exists|i: int|
                0 <= i < 4 && builder.record() == self.record().with_service(
                    #[trigger] Service::menu_spec()[i],
                ),
    {
        proof {
            use_type_invariant(&self);
        }
        let labels = Service::menu_labels();
        let PortForwarderBuilder { port_forwarder, selector, marker } = self;
        let mut selector = selector;
        let choice = selector.select(String::from_str("Select Destination Type"), labels);
        let builder = PortForwarderBuilder::<DestinationType> { port_forwarder, selector, marker };
        builder.destination_type_chosen(choice)
    }

    /// Stores the kind of service at the index that the picker returned,
    /// with its default port as the host's port and the local port derived
    /// from it; or ends the workflow where the picker returned none. An
    /// index that is not in the menu ends it too.
    pub fn destination_type_chosen(self, choice: Option<(usize, String)>) -> (next: Result<
        PortForwarderBuilder<Destination>,
        WorkflowError,
    >)
        ensures
            reached(next) == destination_type_outcome(self.record(), choice),
    {
        proof {
            use_type_invariant(&self);
        }
        match choice {
            None => Err(WorkflowError::UserCanceled),
            Some((index, _)) => {
                let services = Service::menu();
                if index < services.len() {
                    let service = services[index];
                    let default_port = service.default_port();
                    let PortForwarderBuilder { port_forwarder, selector, marker: _ } = self;
                    let PortForwarder {
                        profile_name,
                        instance_id,
                        service: _,
                        host_name,
                        host_port: _,
                        local_port: _,
                        read_only,
                    } = port_forwarder;
                    Ok(
                        PortForwarderBuilder {
                            port_forwarder: PortForwarder {
                                profile_name,
                                instance_id,
                                service: Some(service),
                                host_name,
                                host_port: Some(default_port),
                                local_port: Some(local_port_for(default_port)),
                                read_only,
                            },
                            selector,
                            marker: std::marker::PhantomData,
                        },
                    )
                } else {
                    Err(WorkflowError::FieldUnset(Field::Service))
                }
            },
        }
    }
}

impl PortForwarderBuilder<Destination> {
    /// The kind of service that was chosen.
    pub fn chosen_service(&self) -> (service: Service)
        ensures
            self.record().service == Some(service),
    {
        proof {
            use_type_invariant(self);
        }
        self.port_forwarder.service.unwrap()
    }

    /// Which lookup gives the destinations for the chosen kind of service.
    pub fn destination_source(&self) -> (source: DestinationSource)
        ensures
            self.record().service is Some,
            source == source_of(self.record().service.unwrap()),
    {
        match self.chosen_service() {
            Service::ApplicationLoadBalancer => DestinationSource::LoadBalancers,
            Service::Postgresql => DestinationSource::DatabaseClusterEndpoints,
            Service::Redis => DestinationSource::Fixed,
            Service::Valkey => DestinationSource::Fixed,
        }
    }

    /// Lets the operator choose one of the destinations and stores its
    /// endpoint. `found` is what the lookup named by `destination_source`
    /// returned; for a cache service the workflow offers its own list,
    /// which is empty. Where the operator cancels, or nothing is offered,
    /// the workflow ends as canceled.
    pub fn destination(self, found: Vec<SelectionOption>) -> (next: Result<
        PortForwarderBuilder<Ready>,
        WorkflowError,
    >)
        ensures
            self.record().service is Some,
            offered_destinations(self.record().service.unwrap(), found@).len() == 0 ==> reached(
                next,
            ) == Err::<Parameters, WorkflowError>(WorkflowError::UserCanceled),
            next matches Err(e) ==> e == WorkflowError::UserCanceled,
            next matches Ok(builder) ==> exists|i: int|
                0 <= i < found@.len() && found@ == offered_destinations(
                    self.record().service.unwrap(),
                    found@,
                ) && builder.record() == self.record().with_host(
                    (#[trigger] found@[i]).identifier@,
                ),
    {
        proof {
            use_type_invariant(&self);
        }
        let offered = match self.chosen_service() {
            Service::ApplicationLoadBalancer => found,
            Service::Postgresql => found,
            Service::Redis => redis_servers(),
            Service::Valkey => valkey_servers(),
        };
        assert(offered@ =~= offered_destinations(self.record().service.unwrap(), found@));
        let labels = option_labels(&offered);
        let PortForwarderBuilder { port_forwarder, selector, marker } = self;
        let mut selector = selector;
        let choice = selector.select(String::from_str("Select Host"), labels);
        let builder = PortForwarderBuilder::<Destination> { port_forwarder, selector, marker };
        builder.destination_chosen(&offered, choice)
    }

    /// Stores the endpoint of the destination that the picker returned, or
    /// ends the workflow where it returned none. An index that is not in
    /// the list ends it too.
    pub fn destination_chosen(
        self,
        offered: &Vec<SelectionOption>,
        choice: Option<(usize, String)>,
    ) -> (next: Result<PortForwarderBuilder<Ready>, WorkflowError>)
        ensures
            reached(next) == destination_outcome(self.record(), offered@, choice),
    {
        proof {
            use_type_invariant(&self);
        }
        match choice {
            None => Err(WorkflowError::UserCanceled),
            Some((index, _)) => {
                if index < offered.len() {
                    let host = offered[index].identifier.clone();
                    let PortForwarderBuilder { port_forwarder, selector, marker: _ } = self;
                    let PortForwarder {
                        profile_name,
                        instance_id,
                        service,
                        host_name: _,
                        host_port,
                        local_port,
                        read_only,
                    } = port_forwarder;
                    Ok(
                        PortForwarderBuilder {
                            port_forwarder: PortForwarder {
                                profile_name,
                                instance_id,
                                service,
                                host_name: Some(host),
                                host_port,
                                local_port,
                                read_only,
                            },
                            selector,
                            marker: std::marker::PhantomData,
                        },
                    )
                } else {
                    Err(WorkflowError::FieldUnset(Field::HostName))
                }
            },
        }
    }
}

impl PortForwarderBuilder<Ready> {
    /// Checks the record and hands it out. A record that lacks a field is
    /// refused with the name of the first such field; but a handle at this
    /// stage has been through every stage, so all six fields are set and
    /// this succeeds.
    pub fn build(self) -> (finished: Result<Box<PortForwarder>, WorkflowError>)
        ensures
            finished is Ok <==> self.record().complete(),
            finished matches Err(e) ==> self.record().first_unset() is Some && e
                == WorkflowError::FieldUnset(self.record().first_unset().unwrap()),
            finished matches Ok(record) ==> record@ == self.record(),
            self.record().complete(),
            self.record().filled(4),
    {
        proof {
            use_type_invariant(&self);
        }
        match self.port_forwarder.validate() {
            Ok(()) => Ok(Box::new(self.port_forwarder)),
            Err(e) => Err(e),
        }
    }
}

} // verus!
