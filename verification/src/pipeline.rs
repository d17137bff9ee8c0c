//! The provisioning pipeline as a state machine: a single linear flow from
//! port allocation through network and container creation to persistence,
//! with any failing step leading to a terminal `Failed` state.
//!
//! The machine decides; a driver performs. Each call of [`Pipeline::step`]
//! consumes the outcome of the previous action and yields the next one.
//! Nothing is retried and nothing already created is ever retracted: once the
//! machine is `Done` or `Failed` it only ever answers `Halt`. Engine
//! resources created before a failure therefore stay behind, and a commit
//! failure leaves them without a recorded row; that inconsistency is part of
//! the design, not mended here.
use vstd::prelude::*;
use vstd::string::StringExecFns;

use crate::db::{
    spec_maps_provide_error, EnvironmentEntity, InputEnvironmentEntity, ProvideError,
};
use crate::docker::{
    build_container_spec, build_network_spec, format_container, format_image, get_available_port,
    get_network_base, is_ingress_service, spec_container_spec_ok, spec_is_min, spec_network_spec_ok,
    spec_next_free, spec_port_found, spec_port_scan_failed, spec_subnet_octets, ContainerSpec,
    NetworkSpec, ServiceConfig, PORT_WINDOW,
};
use crate::error::Error;
use crate::model::{spec_env_matches_entity, Environment};
use crate::text::spec_dec;

verus! {

/// Which engine call the launcher waits on for the current service.
#[derive(Clone, Copy, Debug, PartialEq, Eq, Structural)]
pub enum LaunchStage {
    Pull,
    Create,
    Start,
}

/// Where the pipeline stands.
pub enum Phase {
    /// Waiting for the port window probe.
    PortScan,
    /// Port chosen; waiting for the list of existing networks.
    NetworkScan { port: u16 },
    /// Subnet base chosen; waiting for the network creation.
    NetworkSetup { port: u16, base: String },
    /// Launching service `service`, waiting on the `stage` engine call.
    Launching { port: u16, network_id: String, service: usize, stage: LaunchStage },
    /// Everything launched; waiting for the transaction commit.
    Persisting { port: u16 },
    /// The committed environment, as recorded.
    Done { environment: Environment },
    /// Terminal failure; nothing is rolled back.
    Failed { error: Error },
}

/// What the driver reports back after performing an action.
pub enum Event {
    /// For each port of the probed window, whether it could be bound.
    PortsProbed { free: Vec<bool> },
    /// The subnets of the existing container networks.
    NetworksListed { subnets: Vec<String> },
    /// The created network's id, if the engine returned one.
    NetworkMade { result: Result<Option<String>, String> },
    /// The image pull outcome.
    ImagePulled { result: Result<(), String> },
    /// The container creation outcome, with the engine-assigned id.
    ContainerMade { result: Result<String, String> },
    /// The container start outcome.
    ContainerStarted { result: Result<(), String> },
    /// The committed row, or the mapped store failure.
    EnvPersisted { result: Result<EnvironmentEntity, ProvideError> },
}

/// What the driver must do next.
pub enum Action {
    /// Probe ports `base..base + PORT_WINDOW` for bindability.
    ProbePorts { base: u16 },
    /// List the existing container networks' subnets.
    ListNetworks,
    /// Create the environment's network.
    MakeNetwork { network: NetworkSpec },
    /// Pull this image.
    PullImage { image: String },
    /// Create this container.
    MakeContainer { container: ContainerSpec },
    /// Start this container.
    StartContainer { container_name: String },
    /// Record the environment in one transaction.
    PersistEnvironment { input: InputEnvironmentEntity },
    /// The pipeline is finished; nothing more to do.
    Halt,
}

/// The provisioning pipeline for one environment.
pub struct Pipeline {
    pub env_name: String,
    pub services: Vec<ServiceConfig>,
    pub registry: String,
    pub port_base: u16,
    pub phase: Phase,
}

impl Pipeline {
    /// The probed window stays within the port range, and a launching phase
    /// always points at a configured service.
    pub open spec fn wf(self) -> bool {
        &&& self.port_base + PORT_WINDOW <= u16::MAX
        &&& self.phase matches Phase::Launching { service, .. } ==> service
            < self.services@.len()
    }

    /// Start provisioning: the first step is the port window probe.
    pub fn new(env_name: String, services: Vec<ServiceConfig>, registry: String, port_base: u16)
        -> (r: (Pipeline, Action))
        requires
            port_base + PORT_WINDOW <= u16::MAX,
        ensures
            r.0.wf(),
            r.0.env_name == env_name,
            r.0.services == services,
            r.0.registry == registry,
            r.0.port_base == port_base,
            r.0.phase is PortScan,
            r.1 matches Action::ProbePorts { base } && base == port_base,
    {
        let p = Pipeline { env_name, services, registry, port_base, phase: Phase::PortScan };
        (p, Action::ProbePorts { base: port_base })
    }
}

/// The image reference the launcher pulls for one service.
pub open spec fn spec_image_of(registry: Seq<char>, svc: ServiceConfig) -> Seq<char> {
    registry + "/"@ + svc.docker.image@ + ":"@ + svc.docker.tag@
}

/// The ingress port handed to one service's container specification: the
/// allocated port for the ingress service, nothing for the others.
pub open spec fn spec_ingress_of(svc: ServiceConfig, port: u16) -> Option<u16> {
    if svc.service@ == "nginx"@ {
        Some(port)
    } else {
        None
    }
}

/// The persistence request: the environment's name with the allocated port.
pub open spec fn spec_persist_input_ok(input: InputEnvironmentEntity, p: Pipeline, port: u16)
    -> bool {
    input.name@ == p.env_name@ && input.port == port as i32
}

/// How one step moves the machine: for the event answering each waiting
/// phase, the next phase and action; a terminal or mismatched pair leaves the
/// machine unchanged and answers `Halt`.
pub open spec fn spec_step_ok(pre: Pipeline, event: Event, post: Pipeline, action: Action)
    -> bool {
    &&& post.env_name == pre.env_name
    &&& post.services == pre.services
    &&& post.registry == pre.registry
    &&& post.port_base == pre.port_base
    &&& match pre.phase {
        Phase::PortScan => match event {
            Event::PortsProbed { free } => {
                if free@.len() == PORT_WINDOW {
                    ||| (exists|i: int| spec_port_found(free@, i)) && (post.phase
                        matches Phase::NetworkScan { port } && exists|i: int|
                        spec_port_found(free@, i) && port == pre.port_base + i) && action
                        is ListNetworks
                    ||| spec_port_scan_failed(free@) && (post.phase matches Phase::Failed {
                        error,
                    } && error == Error::PortRangeExhausted) && action is Halt
                } else {
                    post == pre && action is Halt
                }
            },
            _ => post == pre && action is Halt,
        },
        Phase::NetworkScan { port } => match event {
            Event::NetworksListed { subnets } => {
                ||| (exists|m: int, c: int|
                    spec_is_min(spec_subnet_octets(subnets@), m) && spec_next_free(
                        spec_subnet_octets(subnets@),
                        m,
                        c,
                    ) && (post.phase matches Phase::NetworkSetup { port: q, base } && q == port
                        && base@ == "172."@ + spec_dec(c as nat) && (action
                        matches Action::MakeNetwork { network } && spec_network_spec_ok(
                        network,
                        pre.env_name@,
                        base@,
                    ))))
                ||| (forall|v: int| !spec_subnet_octets(subnets@).contains(v)) && (post.phase
                    matches Phase::Failed { error } && error == Error::NoBaselineNetwork)
                    && action is Halt
            },
            _ => post == pre && action is Halt,
        },
        Phase::NetworkSetup { port, .. } => match event {
            Event::NetworkMade { result } => match result {
                Ok(Some(id)) => {
                    if pre.services@.len() == 0 {
                        &&& post.phase matches Phase::Persisting { port: q } && q == port
                        &&& action matches Action::PersistEnvironment { input }
                            && spec_persist_input_ok(input, pre, port)
                    } else {
                        &&& post.phase matches Phase::Launching {
                            port: q,
                            network_id,
                            service,
                            stage,
                        } && q == port && network_id == id && service == 0 && stage
                            == LaunchStage::Pull
                        &&& action matches Action::PullImage { image } && image@ == spec_image_of(
                            pre.registry@,
                            pre.services@[0],
                        )
                    }
                },
                Ok(None) => (post.phase matches Phase::Failed { error } && error
                    == Error::NetworkIdMissing) && action is Halt,
                Err(msg) => (post.phase matches Phase::Failed { error } && error
                    matches Error::EngineError { msg: m } && m == msg) && action is Halt,
            },
            _ => post == pre && action is Halt,
        },
        Phase::Launching { port, network_id, service, stage } => match stage {
            LaunchStage::Pull => match event {
                Event::ImagePulled { result } => match result {
                    Ok(_) => {
                        &&& post.phase matches Phase::Launching {
                            port: q,
                            network_id: n,
                            service: s,
                            stage: st,
                        } && q == port && n == network_id && s == service && st
                            == LaunchStage::Create
                        &&& action matches Action::MakeContainer { container }
                            && spec_container_spec_ok(
                            container,
                            pre.env_name@,
                            pre.services@[service as int],
                            network_id@,
                            pre.registry@,
                            spec_ingress_of(pre.services@[service as int], port),
                        )
                    },
                    Err(msg) => (post.phase matches Phase::Failed { error } && error
                        matches Error::EngineError { msg: m } && m == msg) && action is Halt,
                },
                _ => post == pre && action is Halt,
            },
            LaunchStage::Create => match event {
                Event::ContainerMade { result } => match result {
                    Ok(_) => {
                        &&& post.phase matches Phase::Launching {
                            port: q,
                            network_id: n,
                            service: s,
                            stage: st,
                        } && q == port && n == network_id && s == service && st
                            == LaunchStage::Start
                        &&& action matches Action::StartContainer { container_name }
                            && container_name@ == pre.env_name@ + "_"@
                            + pre.services@[service as int].service@
                    },
                    Err(msg) => (post.phase matches Phase::Failed { error } && error
                        matches Error::EngineError { msg: m } && m == msg) && action is Halt,
                },
                _ => post == pre && action is Halt,
            },
            LaunchStage::Start => match event {
                Event::ContainerStarted { result } => match result {
                    Ok(_) => {
                        if service + 1 < pre.services@.len() {
                            &&& post.phase matches Phase::Launching {
                                port: q,
                                network_id: n,
                                service: s,
                                stage: st,
                            } && q == port && n == network_id && s == service + 1 && st
                                == LaunchStage::Pull
                            &&& action matches Action::PullImage { image } && image@
                                == spec_image_of(pre.registry@, pre.services@[service + 1])
                        } else {
                            &&& post.phase matches Phase::Persisting { port: q } && q == port
                            &&& action matches Action::PersistEnvironment { input }
                                && spec_persist_input_ok(input, pre, port)
                        }
                    },
                    Err(msg) => (post.phase matches Phase::Failed { error } && error
                        matches Error::EngineError { msg: m } && m == msg) && action is Halt,
                },
                _ => post == pre && action is Halt,
            },
        },
        Phase::Persisting { .. } => match event {
            Event::EnvPersisted { result } => match result {
                Ok(entity) => (post.phase matches Phase::Done { environment }
                    && spec_env_matches_entity(environment, entity)) && action is Halt,
                Err(pe) => (post.phase matches Phase::Failed { error }
                    && spec_maps_provide_error(pe, error)) && action is Halt,
            },
            _ => post == pre && action is Halt,
        },
        Phase::Done { .. } => post == pre && action is Halt,
        Phase::Failed { .. } => post == pre && action is Halt,
    }
}

impl Pipeline {
    /// Consume the outcome of the pending action and yield the next one.
    pub fn step(&mut self, event: Event) -> (action: Action)
        requires
            old(self).wf(),
        ensures
            final(self).wf(),
            spec_step_ok(*old(self), event, *final(self), action),
    {
        let (next, action): (Option<Phase>, Action) = match &self.phase {
            Phase::PortScan => match event {
                Event::PortsProbed { free } => {
                    if free.len() == PORT_WINDOW {
                        match get_available_port(self.port_base, &free) {
                            Ok(port) => (
                                Some(Phase::NetworkScan { port }),
                                Action::ListNetworks,
                            ),
                            Err(error) => (Some(Phase::Failed { error }), Action::Halt),
                        }
                    } else {
                        (None, Action::Halt)
                    }
                },
                _ => (None, Action::Halt),
            },
            Phase::NetworkScan { port } => match event {
                Event::NetworksListed { subnets } => match get_network_base(&subnets) {
                    Ok(base) => {
                        let network = build_network_spec(
                            self.env_name.as_str(),
                            base.as_str(),
                        );
                        (
                            Some(Phase::NetworkSetup { port: *port, base }),
                            Action::MakeNetwork { network },
                        )
                    },
                    Err(error) => (Some(Phase::Failed { error }), Action::Halt),
                },
                _ => (None, Action::Halt),
            },
            Phase::NetworkSetup { port, .. } => match event {
                Event::NetworkMade { result } => match result {
                    Ok(Some(id)) => {
                        if self.services.len() == 0 {
                            let input = InputEnvironmentEntity {
                                name: self.env_name.clone(),
                                port: *port as i32,
                            };
                            (
                                Some(Phase::Persisting { port: *port }),
                                Action::PersistEnvironment { input },
                            )
                        } else {
                            let image = format_image(
                                self.registry.as_str(),
                                self.services[0].docker.image.as_str(),
                                self.services[0].docker.tag.as_str(),
                            );
                            (
                                Some(
                                    Phase::Launching {
                                        port: *port,
                                        network_id: id,
                                        service: 0,
                                        stage: LaunchStage::Pull,
                                    },
                                ),
                                Action::PullImage { image },
                            )
                        }
                    },
                    Ok(None) => (
                        Some(Phase::Failed { error: Error::NetworkIdMissing }),
                        Action::Halt,
                    ),
                    Err(msg) => (
                        Some(Phase::Failed { error: Error::EngineError { msg } }),
                        Action::Halt,
                    ),
                },
                _ => (None, Action::Halt),
            },
            Phase::Launching { port, network_id, service, stage } => match stage {
                LaunchStage::Pull => match event {
                    Event::ImagePulled { result } => match result {
                        Ok(_) => {
                            let svc = &self.services[*service];
                            let ingress: Option<u16> = if is_ingress_service(svc) {
                                Some(*port)
                            } else {
                                None
                            };
                            let container = build_container_spec(
                                self.env_name.as_str(),
                                svc,
                                network_id.as_str(),
                                self.registry.as_str(),
                                ingress,
                            );
                            (
                                Some(
                                    Phase::Launching {
                                        port: *port,
                                        network_id: network_id.clone(),
                                        service: *service,
                                        stage: LaunchStage::Create,
                                    },
                                ),
                                Action::MakeContainer { container },
                            )
                        },
                        Err(msg) => (
                            Some(Phase::Failed { error: Error::EngineError { msg } }),
                            Action::Halt,
                        ),
                    },
                    _ => (None, Action::Halt),
                },
                LaunchStage::Create => match event {
                    Event::ContainerMade { result } => match result {
                        Ok(_) => {
                            let container_name = format_container(
                                self.services[*service].service.as_str(),
                                self.env_name.as_str(),
                            );
                            (
                                Some(
                                    Phase::Launching {
                                        port: *port,
                                        network_id: network_id.clone(),
                                        service: *service,
                                        stage: LaunchStage::Start,
                                    },
                                ),
                                Action::StartContainer { container_name },
                            )
                        },
                        Err(msg) => (
                            Some(Phase::Failed { error: Error::EngineError { msg } }),
                            Action::Halt,
                        ),
                    },
                    _ => (None, Action::Halt),
                },
                LaunchStage::Start => match event {
                    Event::ContainerStarted { result } => match result {
                        Ok(_) => {
                            let configured = self.services.len();
                            if *service + 1 < configured {
                                let image = format_image(
                                    self.registry.as_str(),
                                    self.services[*service + 1].docker.image.as_str(),
                                    self.services[*service + 1].docker.tag.as_str(),
                                );
                                (
                                    Some(
                                        Phase::Launching {
                                            port: *port,
                                            network_id: network_id.clone(),
                                            service: *service + 1,
                                            stage: LaunchStage::Pull,
                                        },
                                    ),
                                    Action::PullImage { image },
                                )
                            } else {
                                let input = InputEnvironmentEntity {
                                    name: self.env_name.clone(),
                                    port: *port as i32,
                                };
                                (
                                    Some(Phase::Persisting { port: *port }),
                                    Action::PersistEnvironment { input },
                                )
                            }
                        },
                        Err(msg) => (
                            Some(Phase::Failed { error: Error::EngineError { msg } }),
                            Action::Halt,
                        ),
                    },
                    _ => (None, Action::Halt),
                },
            },
            Phase::Persisting { .. } => match event {
                Event::EnvPersisted { result } => match result {
                    Ok(entity) => (
                        Some(Phase::Done { environment: Environment::from_entity(&entity) }),
                        Action::Halt,
                    ),
                    Err(pe) => (
                        Some(Phase::Failed { error: pe.to_error() }),
                        Action::Halt,
                    ),
                },
                _ => (None, Action::Halt),
            },
            Phase::Done { .. } => (None, Action::Halt),
            Phase::Failed { .. } => (None, Action::Halt),
        };
        match next {
            Some(phase) => {
                self.phase = phase;
            },
            None => {},
        }
        action
    }
}

/// A failed pipeline is terminal: whatever else happens, the machine stays
/// failed and asks nothing more of the driver — in particular it never asks
/// to persist a row, and it never asks to remove what was already created.
pub proof fn lemma_failed_is_terminal(pre: Pipeline, event: Event, post: Pipeline, action: Action)
    requires
        spec_step_ok(pre, event, post, action),
        pre.phase is Failed,
    ensures
        post == pre,
        action is Halt,
{
}

/// A failing engine call while launching services short-circuits the
/// pipeline: the machine fails with that engine error and halts, so the
/// remaining services are never attempted and no environment row is ever
/// persisted; what was already created stays behind untouched.
pub proof fn lemma_launch_failure_short_circuits(
    pre: Pipeline,
    msg: String,
    post: Pipeline,
    action: Action,
)
    requires
        pre.phase matches Phase::Launching { stage: LaunchStage::Create, .. },
        spec_step_ok(pre, (Event::ContainerMade { result: Err(msg) }), post, action),
    ensures
        post.phase matches Phase::Failed { error } && error matches Error::EngineError { msg: m }
            && m == msg,
        action is Halt,
{
}

} // verus!
