use service_catalog::categories::ServiceCategory;
use service_catalog::definitions::{
    create_service, DefinitionRecord, ServiceDefinition, ServiceDefinitionFactory,
};
use service_catalog::patterns::Pattern;
use service_catalog::ports::{PortType, Transport};
use service_catalog::registry::Registry;
use service_catalog::vantagenet_server::VantageNetServer;

fn record(name: &str, category: ServiceCategory, port: u16) -> DefinitionRecord {
    DefinitionRecord {
        name: name.to_owned(),
        description: format!("{name} description"),
        category,
        logo_url: format!("/logos/{port}.png"),
        discovery_pattern: Pattern::Endpoint(
            PortType::new_tcp(port),
            "/health".to_owned(),
            "generic".to_owned(),
            None,
        ),
    }
}

fn names(records: &[DefinitionRecord]) -> Vec<String> {
    records.iter().map(|r| r.name.clone()).collect()
}

#[test]
fn tcp_port_keeps_requested_port_and_transport() {
    let p = PortType::new_tcp(60072);
    assert_eq!(p.port(), 60072);
    assert_eq!(p.transport(), Transport::Tcp);
}

#[test]
fn udp_port_keeps_requested_port_and_transport() {
    let p = PortType::new_udp(53);
    assert_eq!(p.port(), 53);
    assert_eq!(p.transport(), Transport::Udp);
}

#[test]
fn port_extremes_are_constructible_and_in_range() {
    let lo = PortType::new_tcp(0);
    let hi = PortType::new_udp(65535);
    assert_eq!(lo.port(), 0);
    assert_eq!(hi.port(), 65535);
}

#[test]
fn vantagenet_server_accessors_match_its_literals() {
    let def = VantageNetServer;
    assert_eq!(def.name(), "VantageNet Server");
    assert_eq!(
        def.description(),
        "Automatically discover and visually document network infrastructure"
    );
    assert_eq!(def.category(), ServiceCategory::VantageNet);
    assert_eq!(def.logo_url(), "/logos/vantagenet-logo.png");
    match def.discovery_pattern() {
        Pattern::Endpoint(port, path, protocol_id, extra) => {
            assert_eq!(port.transport(), Transport::Tcp);
            assert_eq!(port.port(), 60072);
            assert_eq!(path, "/api/health");
            assert_eq!(protocol_id, "vantagenet");
            assert_eq!(extra, None);
        }
    }
}

#[test]
fn registered_vantagenet_definition_is_enumerated_exactly_once() {
    let mut registry = Registry::new();
    registry.submit(ServiceDefinitionFactory::new(&VantageNetServer));
    registry.freeze();

    let defs = registry.enumerate_definitions();
    assert_eq!(defs.len(), 1);
    let entry = &defs[0];
    assert_eq!(entry.name, "VantageNet Server");
    assert_eq!(
        entry.description,
        "Automatically discover and visually document network infrastructure"
    );
    assert_eq!(entry.category, ServiceCategory::VantageNet);
    assert_eq!(entry.logo_url, "/logos/vantagenet-logo.png");
    assert_eq!(
        entry.discovery_pattern,
        Pattern::Endpoint(
            PortType::new_tcp(60072),
            "/api/health".to_owned(),
            "vantagenet".to_owned(),
            None,
        )
    );

    let filtered = registry.filter_by_category(ServiceCategory::VantageNet);
    assert_eq!(filtered.len(), 1);
    assert_eq!(filtered[0], defs[0]);
}

#[test]
fn empty_registry_enumerates_to_an_empty_sequence() {
    let mut registry = Registry::new();
    registry.freeze();
    assert!(registry.enumerate_definitions().is_empty());
    assert!(registry.all().is_empty());
    assert!(registry
        .filter_by_category(ServiceCategory::Storage)
        .is_empty());
}

#[test]
fn registering_n_definitions_enumerates_n_entries() {
    let mut registry = Registry::new();
    registry.submit(ServiceDefinitionFactory::from_record(record(
        "alpha",
        ServiceCategory::Storage,
        9000,
    )));
    registry.submit(ServiceDefinitionFactory::from_record(record(
        "beta",
        ServiceCategory::Identity,
        9001,
    )));
    registry.submit(ServiceDefinitionFactory::from_record(record(
        "gamma",
        ServiceCategory::NetworkInfrastructure,
        9002,
    )));
    registry.freeze();
    assert_eq!(registry.enumerate_definitions().len(), 3);
}

#[test]
fn registration_order_does_not_change_the_set_of_definitions() {
    let a = || record("alpha", ServiceCategory::Storage, 9000);
    let b = || record("beta", ServiceCategory::Identity, 9001);
    let c = || record("gamma", ServiceCategory::NetworkInfrastructure, 9002);

    let mut forward = Registry::new();
    forward.submit(ServiceDefinitionFactory::from_record(a()));
    forward.submit(ServiceDefinitionFactory::from_record(b()));
    forward.submit(ServiceDefinitionFactory::from_record(c()));
    forward.freeze();

    let mut backward = Registry::new();
    backward.submit(ServiceDefinitionFactory::from_record(c()));
    backward.submit(ServiceDefinitionFactory::from_record(b()));
    backward.submit(ServiceDefinitionFactory::from_record(a()));
    backward.freeze();

    let mut first = forward.enumerate_definitions();
    let mut second = backward.enumerate_definitions();
    assert_eq!(first.len(), second.len());
    first.sort_by(|x, y| x.name.cmp(&y.name));
    second.sort_by(|x, y| x.name.cmp(&y.name));
    assert_eq!(first, second);
}

#[test]
fn enumeration_is_restartable() {
    let mut registry = Registry::new();
    registry.submit(ServiceDefinitionFactory::new(&VantageNetServer));
    registry.submit(ServiceDefinitionFactory::from_record(record(
        "alpha",
        ServiceCategory::Storage,
        9000,
    )));
    registry.freeze();
    let first = registry.enumerate_definitions();
    let second = registry.enumerate_definitions();
    assert_eq!(first, second);
}

#[test]
fn filter_by_category_selects_exactly_matching_entries() {
    let mut registry = Registry::new();
    registry.submit(ServiceDefinitionFactory::from_record(record(
        "alpha",
        ServiceCategory::Storage,
        9000,
    )));
    registry.submit(ServiceDefinitionFactory::new(&VantageNetServer));
    registry.submit(ServiceDefinitionFactory::from_record(record(
        "beta",
        ServiceCategory::Storage,
        9001,
    )));
    registry.freeze();

    let storage = registry.filter_by_category(ServiceCategory::Storage);
    assert_eq!(names(&storage), vec!["alpha".to_owned(), "beta".to_owned()]);
    let vantage = registry.filter_by_category(ServiceCategory::VantageNet);
    assert_eq!(names(&vantage), vec!["VantageNet Server".to_owned()]);
    let identity = registry.filter_by_category(ServiceCategory::Identity);
    assert!(identity.is_empty());

    let all_categories = [
        ServiceCategory::VantageNet,
        ServiceCategory::NetworkInfrastructure,
        ServiceCategory::Storage,
        ServiceCategory::Identity,
    ];
    let union_size: usize = all_categories
        .iter()
        .map(|c| registry.filter_by_category(*c).len())
        .sum();
    assert_eq!(union_size, registry.enumerate_definitions().len());
}

#[test]
fn duplicate_names_are_tolerated_and_filtered_by_their_own_category() {
    let mut registry = Registry::new();
    registry.submit(ServiceDefinitionFactory::from_record(record(
        "twin",
        ServiceCategory::Storage,
        9000,
    )));
    registry.submit(ServiceDefinitionFactory::from_record(record(
        "twin",
        ServiceCategory::Identity,
        9001,
    )));
    registry.freeze();

    let defs = registry.enumerate_definitions();
    assert_eq!(names(&defs), vec!["twin".to_owned(), "twin".to_owned()]);

    let storage = registry.filter_by_category(ServiceCategory::Storage);
    assert_eq!(storage.len(), 1);
    assert_eq!(storage[0].category, ServiceCategory::Storage);
    let identity = registry.filter_by_category(ServiceCategory::Identity);
    assert_eq!(identity.len(), 1);
    assert_eq!(identity[0].category, ServiceCategory::Identity);
}

#[test]
fn submissions_after_freeze_are_ignored() {
    let mut registry = Registry::new();
    registry.submit(ServiceDefinitionFactory::new(&VantageNetServer));
    registry.freeze();
    registry.submit(ServiceDefinitionFactory::from_record(record(
        "late",
        ServiceCategory::Storage,
        9000,
    )));
    assert_eq!(registry.enumerate_definitions().len(), 1);
}

#[test]
fn bootstrap_builds_a_frozen_catalog_in_list_order() {
    let factories = vec![
        ServiceDefinitionFactory::new(&VantageNetServer),
        ServiceDefinitionFactory::from_record(record("alpha", ServiceCategory::Storage, 9000)),
    ];
    let registry = Registry::bootstrap(factories);
    let defs = registry.enumerate_definitions();
    assert_eq!(
        names(&defs),
        vec!["VantageNet Server".to_owned(), "alpha".to_owned()]
    );
}

#[test]
fn factory_instantiations_are_observationally_consistent() {
    let source = record("alpha", ServiceCategory::Storage, 9000);
    let factory = ServiceDefinitionFactory::from_record(source.clone());
    let first = factory.instantiate();
    let second = factory.instantiate();
    assert_eq!(first, source);
    assert_eq!(first, second);
}

#[test]
fn create_service_reads_every_accessor() {
    let entry = create_service(&VantageNetServer);
    assert_eq!(entry.name, VantageNetServer.name());
    assert_eq!(entry.description, VantageNetServer.description());
    assert_eq!(entry.category, VantageNetServer.category());
    assert_eq!(entry.logo_url, VantageNetServer.logo_url());
    assert_eq!(entry.discovery_pattern, VantageNetServer.discovery_pattern());
}
