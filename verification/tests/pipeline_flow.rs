use nidavellir::db::ProvideError;
use nidavellir::docker::{DockerConfig, NetworkConfig, ServiceConfig, PORT_WINDOW};
use nidavellir::pipeline::{Action, Event, Phase, Pipeline};
use nidavellir::error::Error;
use nidavellir::store::MemStore;

fn service(name: &str, image: &str, suffix: u16) -> ServiceConfig {
    ServiceConfig {
        service: name.to_string(),
        docker: DockerConfig { image: image.to_string(), tag: "latest".to_string() },
        network: NetworkConfig {
            addr_base: "172.18".to_string(),
            addr_suffix: suffix,
            id: None,
        },
        envs: Some(vec!["RUST_LOG=info".to_string()]),
        ports: None,
    }
}

fn probe_with_first_free(free_at: usize) -> Event {
    let mut free = vec![false; PORT_WINDOW];
    free[free_at] = true;
    Event::PortsProbed { free }
}

fn existing_networks() -> Event {
    Event::NetworksListed {
        subnets: vec![
            "172.16.0.0/16".to_string(),
            "172.17.0.0/16".to_string(),
            "172.19.0.0/16".to_string(),
        ],
    }
}

#[test]
fn two_service_environment_end_to_end() {
    let services = vec![service("api", "mimir", 2), service("nginx", "front", 3)];
    let (mut pipeline, action) =
        Pipeline::new("dev1".to_string(), services, "localhost:5000".to_string(), 9000);
    assert!(matches!(action, Action::ProbePorts { base: 9000 }));

    let action = pipeline.step(probe_with_first_free(2));
    assert!(matches!(action, Action::ListNetworks));

    let action = pipeline.step(existing_networks());
    match action {
        Action::MakeNetwork { network } => {
            assert_eq!(network.name, "dev1_default");
            assert_eq!(network.driver, "bridge");
            assert_eq!(network.subnet, "172.18.0.0/16");
            assert_eq!(network.gateway, "172.18.0.1");
            assert_eq!(network.labels.len(), 3);
            assert_eq!(network.labels[2].key, "nidavellir.environment");
            assert_eq!(network.labels[2].value, "dev1");
        }
        _ => panic!("expected the network creation action"),
    }

    let action = pipeline.step(Event::NetworkMade { result: Ok(Some("net-1".to_string())) });
    match action {
        Action::PullImage { image } => assert_eq!(image, "localhost:5000/mimir:latest"),
        _ => panic!("expected the first image pull"),
    }

    let action = pipeline.step(Event::ImagePulled { result: Ok(()) });
    match action {
        Action::MakeContainer { container } => {
            assert_eq!(container.name, "dev1_api");
            assert_eq!(container.image, "localhost:5000/mimir:latest");
            assert_eq!(container.network_name, "dev1_default");
            assert_eq!(container.network_id, "net-1");
            assert_eq!(container.alias, "api");
            assert_eq!(container.gateway, "172.18.0.1");
            assert_eq!(container.ip_address, "172.18.0.2");
            assert_eq!(container.ip_prefix_len, 8);
            assert_eq!(container.env, Some(vec!["RUST_LOG=info".to_string()]));
            assert!(container.port_bindings.is_none());
            assert!(container.exposed_ports.is_none());
        }
        _ => panic!("expected the first container creation"),
    }

    let action = pipeline.step(Event::ContainerMade { result: Ok("cid-1".to_string()) });
    match action {
        Action::StartContainer { container_name } => assert_eq!(container_name, "dev1_api"),
        _ => panic!("expected the first container start"),
    }

    let action = pipeline.step(Event::ContainerStarted { result: Ok(()) });
    match action {
        Action::PullImage { image } => assert_eq!(image, "localhost:5000/front:latest"),
        _ => panic!("expected the second image pull"),
    }

    let action = pipeline.step(Event::ImagePulled { result: Ok(()) });
    match action {
        Action::MakeContainer { container } => {
            assert_eq!(container.name, "dev1_nginx");
            assert_eq!(container.ip_address, "172.18.0.3");
            let bindings = container.port_bindings.expect("the ingress binding");
            assert_eq!(bindings.len(), 1);
            assert_eq!(bindings[0].container_port, "80/tcp");
            assert_eq!(bindings[0].host_ip, "0.0.0.0");
            assert_eq!(bindings[0].host_port, "9002");
            assert_eq!(container.exposed_ports, Some(vec!["80/tcp".to_string()]));
        }
        _ => panic!("expected the ingress container creation"),
    }

    let action = pipeline.step(Event::ContainerMade { result: Ok("cid-2".to_string()) });
    assert!(matches!(action, Action::StartContainer { .. }));

    let action = pipeline.step(Event::ContainerStarted { result: Ok(()) });
    let input = match action {
        Action::PersistEnvironment { input } => input,
        _ => panic!("expected the persistence request"),
    };
    assert_eq!(input.name, "dev1");
    assert_eq!(input.port, 9002);

    let mut store = MemStore::new();
    let entity = store.create_environment(&input).expect("the commit");
    assert_eq!(entity.port, 9002);
    let action = pipeline.step(Event::EnvPersisted { result: Ok(entity) });
    assert!(matches!(action, Action::Halt));
    match &pipeline.phase {
        Phase::Done { environment } => {
            assert_eq!(environment.name, "dev1");
            assert_eq!(environment.port, 9002);
        }
        _ => panic!("expected the pipeline to be done"),
    }
}

#[test]
fn second_container_failure_short_circuits_without_rollback_or_row() {
    let services = vec![service("api", "mimir", 2), service("nginx", "front", 3)];
    let (mut pipeline, _) =
        Pipeline::new("dev1".to_string(), services, "localhost:5000".to_string(), 9000);
    pipeline.step(probe_with_first_free(2));
    pipeline.step(existing_networks());
    pipeline.step(Event::NetworkMade { result: Ok(Some("net-1".to_string())) });
    pipeline.step(Event::ImagePulled { result: Ok(()) });
    pipeline.step(Event::ContainerMade { result: Ok("cid-1".to_string()) });
    pipeline.step(Event::ContainerStarted { result: Ok(()) });
    pipeline.step(Event::ImagePulled { result: Ok(()) });

    // The engine refuses the second container.
    let action = pipeline.step(Event::ContainerMade {
        result: Err("no such image".to_string()),
    });
    assert!(matches!(action, Action::Halt));
    match &pipeline.phase {
        Phase::Failed { error } => {
            assert_eq!(*error, Error::EngineError { msg: "no such image".to_string() });
        }
        _ => panic!("expected the pipeline to have failed"),
    }

    // The failure is terminal: nothing more is asked of the driver, so no
    // store row is ever written and nothing already created is removed.
    let action = pipeline.step(Event::ContainerStarted { result: Ok(()) });
    assert!(matches!(action, Action::Halt));
    assert!(matches!(pipeline.phase, Phase::Failed { .. }));
}

#[test]
fn missing_network_id_is_its_own_failure() {
    let services = vec![service("api", "mimir", 2)];
    let (mut pipeline, _) =
        Pipeline::new("dev1".to_string(), services, "localhost:5000".to_string(), 9000);
    pipeline.step(probe_with_first_free(2));
    pipeline.step(existing_networks());
    let action = pipeline.step(Event::NetworkMade { result: Ok(None) });
    assert!(matches!(action, Action::Halt));
    match &pipeline.phase {
        Phase::Failed { error } => assert_eq!(*error, Error::NetworkIdMissing),
        _ => panic!("expected the pipeline to have failed"),
    }
}

#[test]
fn free_base_port_fails_the_pipeline() {
    let services = vec![service("api", "mimir", 2)];
    let (mut pipeline, _) =
        Pipeline::new("dev1".to_string(), services, "localhost:5000".to_string(), 9000);
    let action = pipeline.step(probe_with_first_free(0));
    assert!(matches!(action, Action::Halt));
    match &pipeline.phase {
        Phase::Failed { error } => assert_eq!(*error, Error::PortRangeExhausted),
        _ => panic!("expected the pipeline to have failed"),
    }
}

#[test]
fn an_event_that_answers_nothing_changes_nothing() {
    let services = vec![service("api", "mimir", 2)];
    let (mut pipeline, _) =
        Pipeline::new("dev1".to_string(), services, "localhost:5000".to_string(), 9000);
    // The machine waits for the port probe; a container event answers nothing.
    let action = pipeline.step(Event::ContainerStarted { result: Ok(()) });
    assert!(matches!(action, Action::Halt));
    assert!(matches!(pipeline.phase, Phase::PortScan));
}

#[test]
fn an_environment_without_services_is_persisted_right_after_its_network() {
    let (mut pipeline, _) =
        Pipeline::new("dev1".to_string(), Vec::new(), "localhost:5000".to_string(), 9000);
    pipeline.step(probe_with_first_free(2));
    pipeline.step(existing_networks());
    let action = pipeline.step(Event::NetworkMade { result: Ok(Some("net-1".to_string())) });
    match action {
        Action::PersistEnvironment { input } => {
            assert_eq!(input.name, "dev1");
            assert_eq!(input.port, 9002);
        }
        _ => panic!("expected the persistence request"),
    }
}

#[test]
fn provisioning_the_same_name_twice_fails_on_commit() {
    let mut store = MemStore::new();
    for expected in [true, false] {
        let services = vec![service("api", "mimir", 2)];
        let (mut pipeline, _) =
            Pipeline::new("dev1".to_string(), services, "localhost:5000".to_string(), 9000);
        pipeline.step(probe_with_first_free(2));
        pipeline.step(existing_networks());
        pipeline.step(Event::NetworkMade { result: Ok(Some("net-1".to_string())) });
        pipeline.step(Event::ImagePulled { result: Ok(()) });
        pipeline.step(Event::ContainerMade { result: Ok("cid-1".to_string()) });
        let action = pipeline.step(Event::ContainerStarted { result: Ok(()) });
        let input = match action {
            Action::PersistEnvironment { input } => input,
            _ => panic!("expected the persistence request"),
        };
        let result: Result<_, ProvideError> = store.create_environment(&input);
        assert_eq!(result.is_ok(), expected);
        let action = pipeline.step(Event::EnvPersisted { result });
        assert!(matches!(action, Action::Halt));
        if expected {
            assert!(matches!(pipeline.phase, Phase::Done { .. }));
        } else {
            match &pipeline.phase {
                Phase::Failed { error } => {
                    assert_eq!(
                        *error,
                        Error::UniqueViolation {
                            details: "Key (name)=(dev1) already exists.".to_string()
                        }
                    );
                }
                _ => panic!("expected the second run to fail"),
            }
        }
        // The first run's row stays either way.
        assert_eq!(store.environments.len(), 1);
        assert_eq!(store.environments[0].port, 9002);
    }
}
