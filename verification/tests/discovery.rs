use outbound_policy::discovery::{
    DiscoverOutboundPolicy, DiscoveryError, OutboundDiscoverTarget, OutboundPolicyStream,
};
use outbound_policy::net::IpAddr;
use outbound_policy::outbound::{OutboundPolicy, OutboundRouteCollection};

fn policy(name: &str, namespace: &str, port: u16) -> OutboundPolicy {
    OutboundPolicy {
        routes: OutboundRouteCollection::default(),
        authority: format!("{}.{}.svc.cluster.local:{}", name, namespace, port),
        name: name.to_string(),
        namespace: namespace.to_string(),
        port,
        opaque: false,
        accrual: None,
    }
}

/// One service the toy index knows: its address, identity, the namespaces it
/// is visible from, and its current policy.
struct Entry {
    addr: IpAddr,
    port: u16,
    name: String,
    namespace: String,
    visible_from: Vec<String>,
    policy: OutboundPolicy,
}

struct TestDiscovery {
    entries: Vec<Entry>,
}

impl TestDiscovery {
    fn with_one_service() -> Self {
        TestDiscovery {
            entries: vec![Entry {
                addr: IpAddr::V4(0x0a00_0001),
                port: 8080,
                name: "web".to_string(),
                namespace: "apps".to_string(),
                visible_from: vec!["apps".to_string(), "monitoring".to_string()],
                policy: policy("web", "apps", 8080),
            }],
        }
    }

    fn find(&self, target: &OutboundDiscoverTarget) -> Option<&Entry> {
        self.entries.iter().find(|e| {
            e.name == target.service_name
                && e.namespace == target.service_namespace
                && e.port == target.service_port
                && e.visible_from.contains(&target.source_namespace)
        })
    }
}

impl DiscoverOutboundPolicy<OutboundDiscoverTarget> for TestDiscovery {
    fn get_outbound_policy(
        &self,
        target: OutboundDiscoverTarget,
    ) -> Result<Option<OutboundPolicy>, DiscoveryError> {
        Ok(self.find(&target).map(|e| e.policy.clone()))
    }

    fn watch_outbound_policy(
        &self,
        target: OutboundDiscoverTarget,
    ) -> Result<Option<OutboundPolicyStream>, DiscoveryError> {
        Ok(self.find(&target).map(|e| {
            let mut stream = OutboundPolicyStream::new();
            stream.publish(e.policy.clone());
            stream
        }))
    }

    fn lookup_ip(
        &self,
        addr: IpAddr,
        port: u16,
        source_namespace: String,
    ) -> Option<OutboundDiscoverTarget> {
        self.entries
            .iter()
            .find(|e| e.addr == addr && e.port == port && e.visible_from.contains(&source_namespace))
            .map(|e| OutboundDiscoverTarget {
                service_name: e.name.clone(),
                service_namespace: e.namespace.clone(),
                service_port: e.port,
                source_namespace: source_namespace.clone(),
            })
    }
}

fn known_target() -> OutboundDiscoverTarget {
    OutboundDiscoverTarget {
        service_name: "web".to_string(),
        service_namespace: "apps".to_string(),
        service_port: 8080,
        source_namespace: "apps".to_string(),
    }
}

#[test]
fn get_for_an_unknown_target_is_an_empty_result_not_a_failure() {
    let discovery = TestDiscovery::with_one_service();
    let mut target = known_target();
    target.service_name = "nowhere".to_string();
    let result = discovery.get_outbound_policy(target);
    assert_eq!(result, Ok(None));
}

#[test]
fn get_for_a_known_target_returns_the_snapshot() {
    let discovery = TestDiscovery::with_one_service();
    let result = discovery.get_outbound_policy(known_target()).unwrap();
    let snapshot = result.unwrap();
    assert_eq!(snapshot.name, "web");
    assert_eq!(snapshot.port, 8080);
    assert!(snapshot.routes.is_empty());
}

#[test]
fn lookup_ip_not_visible_to_the_namespace_is_an_empty_result() {
    let discovery = TestDiscovery::with_one_service();
    let hidden = discovery.lookup_ip(IpAddr::V4(0x0a00_0001), 8080, "other-team".to_string());
    assert_eq!(hidden, None);
    let visible = discovery.lookup_ip(IpAddr::V4(0x0a00_0001), 8080, "monitoring".to_string());
    assert_eq!(
        visible,
        Some(OutboundDiscoverTarget {
            service_name: "web".to_string(),
            service_namespace: "apps".to_string(),
            service_port: 8080,
            source_namespace: "monitoring".to_string(),
        })
    );
    let wrong_port = discovery.lookup_ip(IpAddr::V4(0x0a00_0001), 9999, "apps".to_string());
    assert_eq!(wrong_port, None);
}

#[test]
fn watch_for_an_unknown_target_is_an_empty_result() {
    let discovery = TestDiscovery::with_one_service();
    let mut target = known_target();
    target.source_namespace = "other-team".to_string();
    let watch = discovery.watch_outbound_policy(target).unwrap();
    assert!(watch.is_none());
}

#[test]
fn a_fresh_stream_emits_nothing_before_the_first_snapshot() {
    let mut stream = OutboundPolicyStream::new();
    assert_eq!(stream.pending(), 0);
    assert!(stream.next().is_none());
    stream.publish(policy("web", "apps", 80));
    assert_eq!(stream.pending(), 1);
    assert_eq!(stream.next(), Some(policy("web", "apps", 80)));
    assert!(stream.next().is_none());
}

#[test]
fn a_stream_emits_full_snapshots_in_publication_order() {
    let mut stream = OutboundPolicyStream::new();
    stream.publish(policy("web", "apps", 80));
    stream.publish(policy("web", "apps", 81));
    stream.publish(policy("web", "apps", 82));
    assert_eq!(stream.pending(), 3);
    assert_eq!(stream.next().unwrap().port, 80);
    assert_eq!(stream.next().unwrap().port, 81);
    assert_eq!(stream.next().unwrap().port, 82);
    assert_eq!(stream.pending(), 0);
}

#[test]
fn a_subscription_starts_with_the_current_snapshot() {
    let discovery = TestDiscovery::with_one_service();
    let mut stream = discovery
        .watch_outbound_policy(known_target())
        .unwrap()
        .unwrap();
    let first = stream.next().unwrap();
    assert_eq!(first, policy("web", "apps", 8080));
    assert!(stream.next().is_none());
}

#[test]
fn a_discovery_error_carries_the_upstream_message() {
    let err = DiscoveryError {
        message: "index shut down".to_string(),
    };
    assert_eq!(err.message, "index shut down");
}
