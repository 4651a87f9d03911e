//! Routing: which services a cluster's domains lead to, and the resources
//! that say so.

use vstd::prelude::*;
use crate::consts::APPS_NAMESPACE;
use crate::consts::BACKEND_NAME;
use crate::consts::BACKEND_PATH;
use crate::consts::BACKEND_PORT;
use crate::consts::DASHBOARD_NAME;
use crate::consts::DASHBOARD_PATH;
use crate::consts::DASHBOARD_PORT;
use crate::consts::FRONTEND_NAME;
use crate::consts::FRONTEND_PATH;
use crate::consts::FRONTEND_PORT;
use crate::consts::INGRESS_NAMESPACE;
use crate::consts::MONITORING_NAMESPACE;
use crate::document::DispatchRule;
use crate::document::DispatchRuleView;
use crate::document::DocumentView;
use crate::document::ResourceDocument;
use crate::model::InfrastructureView;
use crate::model::IngressView;
use crate::model::Manifest;
use crate::model::ManifestView;
use crate::naming::derive_name;
use crate::naming::derived_name;

verus! {

/// A service that a domain's traffic is routed to: requests under `path`
/// reach port `port` of the service `name` in `namespace`.
#[derive(Clone, Debug, PartialEq, Eq)]
pub struct ServiceMapping {
    pub namespace: String,
    pub name: String,
    pub port: u16,
    pub path: String,
}

pub struct ServiceMappingView {
    pub namespace: Seq<char>,
    pub name: Seq<char>,
    pub port: u16,
    pub path: Seq<char>,
}

impl View for ServiceMapping {
    type V = ServiceMappingView;

    open spec fn view(&self) -> ServiceMappingView {
        ServiceMappingView {
            namespace: self.namespace@,
            name: self.name@,
            port: self.port,
            path: self.path@,
        }
    }
}

impl DeepView for ServiceMapping {
    type V = ServiceMappingView;

    open spec fn deep_view(&self) -> ServiceMappingView {
        self@
    }
}

/// The mapping of the frontend, which serves the root path.
pub open spec fn frontend_mapping() -> ServiceMappingView {
    ServiceMappingView {
        namespace: APPS_NAMESPACE@,
        name: FRONTEND_NAME@,
        port: FRONTEND_PORT,
        path: FRONTEND_PATH@,
    }
}

/// The mapping of the backend.
pub open spec fn backend_mapping() -> ServiceMappingView {
    ServiceMappingView {
        namespace: APPS_NAMESPACE@,
        name: BACKEND_NAME@,
        port: BACKEND_PORT,
        path: BACKEND_PATH@,
    }
}

/// The mapping of the monitoring dashboard.
pub open spec fn dashboard_mapping() -> ServiceMappingView {
    ServiceMappingView {
        namespace: MONITORING_NAMESPACE@,
        name: DASHBOARD_NAME@,
        port: DASHBOARD_PORT,
        path: DASHBOARD_PATH@,
    }
}

/// The dashboard is routed only where monitoring as a whole and the
/// dashboard itself are both enabled.
pub open spec fn dashboard_routed(manifest: ManifestView) -> bool {
    manifest.infrastructure.monitoring.enabled
        && manifest.infrastructure.monitoring.dashboard.enabled
}

/// The mapping itself where `present` holds, nothing otherwise.
pub open spec fn mapping_if(present: bool, mapping: ServiceMappingView) -> Seq<ServiceMappingView> {
    if present {
        seq![mapping]
    } else {
        Seq::empty()
    }
}

/// The services that traffic is routed to: frontend, backend and dashboard
/// in this order, each only where it is enabled.
pub open spec fn enabled_services(manifest: ManifestView) -> Seq<ServiceMappingView> {
    mapping_if(manifest.apps.frontend.enabled, frontend_mapping())
        + mapping_if(manifest.apps.backend.enabled, backend_mapping())
        + mapping_if(dashboard_routed(manifest), dashboard_mapping())
}

/// The name of the route that leads a virtual server's traffic to a service.
pub open spec fn route_target(server: Seq<char>, service: ServiceMappingView) -> Seq<char> {
    service.namespace + "/"@ + server + "-"@ + service.name
}

/// The rule by which the virtual server `server` dispatches to `service`.
pub open spec fn dispatch_rule(server: Seq<char>, service: ServiceMappingView) -> DispatchRuleView {
    DispatchRuleView { path: service.path, target: route_target(server, service) }
}

/// The virtual server of a domain, with one rule for each service.
pub open spec fn virtual_server(
    domain: Seq<char>,
    services: Seq<ServiceMappingView>,
) -> DocumentView {
    let name = derived_name(domain);
    DocumentView::VirtualServer {
        name,
        namespace: INGRESS_NAMESPACE@,
        host: domain,
        tls_secret: name + "-tls"@,
        routes: services.map_values(|service: ServiceMappingView| dispatch_rule(name, service)),
    }
}

/// The route that passes a domain's traffic for one service on to it.
pub open spec fn virtual_server_route(domain: Seq<char>, service: ServiceMappingView) -> DocumentView {
    DocumentView::VirtualServerRoute {
        name: derived_name(domain) + "-"@ + service.name,
        namespace: service.namespace,
        host: domain,
        upstream: service.name,
        service: service.name,
        port: service.port,
        path: service.path,
        pass: service.name,
    }
}

/// The resources of one domain: its virtual server, then one route for
/// each service in the order of `services`.
pub open spec fn domain_documents(
    domain: Seq<char>,
    services: Seq<ServiceMappingView>,
) -> Seq<DocumentView> {
    seq![virtual_server(domain, services)] + services.map_values(
        |service: ServiceMappingView| virtual_server_route(domain, service),
    )
}

/// The resources of all domains, domain after domain in the order of
/// `domains`.
pub open spec fn routing_documents(
    domains: Seq<Seq<char>>,
    services: Seq<ServiceMappingView>,
) -> Seq<DocumentView>
    decreases domains.len(),
{
    if domains.len() == 0 {
        Seq::empty()
    } else {
        routing_documents(domains.drop_last(), services) + domain_documents(
            domains.last(),
            services,
        )
    }
}

/// The services that a manifest routes traffic to: frontend, backend and
/// dashboard in this order, each only where it is enabled.
pub fn service_mappings(manifest: &Manifest) -> (services: Vec<ServiceMapping>)
    ensures
        services.deep_view() == enabled_services(manifest@),
{
    let mut services: Vec<ServiceMapping> = Vec::new();
    if manifest.apps.frontend.enabled {
        services.push(
            ServiceMapping {
                namespace: String::from_str(APPS_NAMESPACE),
                name: String::from_str(FRONTEND_NAME),
                port: FRONTEND_PORT,
                path: String::from_str(FRONTEND_PATH),
            },
        );
    }
    if manifest.apps.backend.enabled {
        services.push(
            ServiceMapping {
                namespace: String::from_str(APPS_NAMESPACE),
                name: String::from_str(BACKEND_NAME),
                port: BACKEND_PORT,
                path: String::from_str(BACKEND_PATH),
            },
        );
    }
    if manifest.infrastructure.monitoring.enabled
        && manifest.infrastructure.monitoring.dashboard.enabled {
        services.push(
            ServiceMapping {
                namespace: String::from_str(MONITORING_NAMESPACE),
                name: String::from_str(DASHBOARD_NAME),
                port: DASHBOARD_PORT,
                path: String::from_str(DASHBOARD_PATH),
            },
        );
    }
    assert(services.deep_view() =~= enabled_services(manifest@));
    services
}

/// The rule by which the virtual server named `server` dispatches to
/// `service`.
pub fn rule_for(server: &str, service: &ServiceMapping) -> (rule: DispatchRule)
    ensures
        rule@ == dispatch_rule(server@, service@),
{
    let mut target = service.namespace.clone();
    target.append("/");
    target.append(server);
    target.append("-");
    target.append(service.name.as_str());
    DispatchRule { path: service.path.clone(), target }
}

/// The route that passes the traffic of `domain` for `service` on to it;
/// `server` is the name derived from the domain.
fn route_for(domain: &str, server: &str, service: &ServiceMapping) -> (document: ResourceDocument)
    requires
        server@ == derived_name(domain@),
    ensures
        document@ == virtual_server_route(domain@, service@),
{
    let mut name = String::from_str(server);
    name.append("-");
    name.append(service.name.as_str());
    ResourceDocument::VirtualServerRoute {
        name,
        namespace: service.namespace.clone(),
        host: String::from_str(domain),
        upstream: service.name.clone(),
        service: service.name.clone(),
        port: service.port,
        path: service.path.clone(),
        pass: service.name.clone(),
    }
}

/// The resources of one domain: its virtual server, which dispatches to
/// every service of `services`, then one route for each of them. With no
/// services the virtual server has no rules and no route follows it.
pub fn domain_resources(domain: &str, services: &Vec<ServiceMapping>) -> (documents: Vec<
    ResourceDocument,
>)
    ensures
        documents.deep_view() == domain_documents(domain@, services.deep_view()),
{
    let server = derive_name(domain);
    let mut routes: Vec<DispatchRule> = Vec::new();
    let mut i: usize = 0;
    while i < services.len()
        invariant
            i <= services.len(),
            routes.len() == i,
            server@ == derived_name(domain@),
            forall|k: int| 0 <= k < i ==> routes[k]@ == dispatch_rule(server@, services[k]@),
        decreases services.len() - i,
    {
        routes.push(rule_for(server.as_str(), &services[i]));
        i += 1;
    }
    let mut tls_secret = server.clone();
    tls_secret.append("-tls");
    let mut documents: Vec<ResourceDocument> = Vec::new();
    documents.push(
        ResourceDocument::VirtualServer {
            name: server.clone(),
            namespace: String::from_str(INGRESS_NAMESPACE),
            host: String::from_str(domain),
            tls_secret,
            routes,
        },
    );
    proof {
        assert(routes.deep_view() =~= services.deep_view().map_values(
            |service: ServiceMappingView| dispatch_rule(server@, service),
        ));
        assert(documents[0]@ == virtual_server(domain@, services.deep_view()));
    }
    let mut j: usize = 0;
    while j < services.len()
        invariant
            j <= services.len(),
            documents.len() == j + 1,
            server@ == derived_name(domain@),
            documents[0]@ == virtual_server(domain@, services.deep_view()),
            forall|k: int| 0 <= k < j ==> documents[k + 1]@ == virtual_server_route(
                domain@,
                #[trigger] services[k]@,
            ),
        decreases services.len() - j,
    {
        documents.push(route_for(domain, server.as_str(), &services[j]));
        j += 1;
    }
    assert(documents.deep_view() =~= domain_documents(domain@, services.deep_view()));
    documents
}

/// The resources of all domains, domain after domain in the order of
/// `domains`.
pub fn routing_resources(domains: &Vec<String>, services: &Vec<ServiceMapping>) -> (documents: Vec<
    ResourceDocument,
>)
    ensures
        documents.deep_view() == routing_documents(domains.deep_view(), services.deep_view()),
{
    let mut documents: Vec<ResourceDocument> = Vec::new();
    let mut i: usize = 0;
    while i < domains.len()
        invariant
            i <= domains.len(),
            documents.deep_view() == routing_documents(
                domains.deep_view().take(i as int),
                services.deep_view(),
            ),
        decreases domains.len() - i,
    {
        let ghost before = documents.deep_view();
        let mut next = domain_resources(domains[i].as_str(), services);
        let ghost added = next.deep_view();
        documents.append(&mut next);
        proof {
            let done = domains.deep_view().take(i as int + 1);
            assert(done.drop_last() =~= domains.deep_view().take(i as int));
            assert(done.last() == domains[i as int]@);
            assert(documents.deep_view() =~= before + added);
        }
        i += 1;
    }
    proof {
        assert(domains.deep_view().take(domains.len() as int) =~= domains.deep_view());
    }
    documents
}

/// The host whose traffic a routing document is about.
pub open spec fn host_of(document: DocumentView) -> Option<Seq<char>> {
    match document {
        DocumentView::VirtualServer { host, .. } => Some(host),
        DocumentView::VirtualServerRoute { host, .. } => Some(host),
        _ => None,
    }
}

/// The document routes traffic to `service`: a virtual server by one of
/// its rules, a route by its upstream.
pub open spec fn mentions(document: DocumentView, service: ServiceMappingView) -> bool {
    match document {
        DocumentView::VirtualServer { name, routes, .. } => routes.contains(
            dispatch_rule(name, service),
        ),
        DocumentView::VirtualServerRoute { namespace, service: upstream, .. } => {
            namespace == service.namespace && upstream == service.name
        },
        _ => false,
    }
}

/// `service` is the mapping of the frontend, the backend or the dashboard.
pub open spec fn known_service(service: ServiceMappingView) -> bool {
    service == frontend_mapping() || service == backend_mapping() || service
        == dashboard_mapping()
}

/// The three mappings differ from each other in name and in path.
pub proof fn lemma_mappings_differ()
    ensures
        frontend_mapping().name != backend_mapping().name,
        frontend_mapping().name != dashboard_mapping().name,
        backend_mapping().name != dashboard_mapping().name,
        frontend_mapping().path != backend_mapping().path,
        frontend_mapping().path != dashboard_mapping().path,
        backend_mapping().path != dashboard_mapping().path,
{
    reveal_strlit("frontend");
    reveal_strlit("backend");
    reveal_strlit("dashboard");
    reveal_strlit("/");
    reveal_strlit("/api");
    reveal_strlit("/monitoring");
    assert(FRONTEND_NAME@.len() == 8 && BACKEND_NAME@.len() == 7 && DASHBOARD_NAME@.len() == 9);
    assert(FRONTEND_PATH@.len() == 1 && BACKEND_PATH@.len() == 4 && DASHBOARD_PATH@.len() == 11);
}

/// A service is among those that traffic is routed to exactly where it is
/// enabled; the dashboard, where monitoring and the dashboard both are.
pub proof fn lemma_routed_iff_enabled(manifest: ManifestView)
    ensures
        enabled_services(manifest).contains(frontend_mapping()) <==> manifest.apps.frontend.enabled,
        enabled_services(manifest).contains(backend_mapping()) <==> manifest.apps.backend.enabled,
        enabled_services(manifest).contains(dashboard_mapping()) <==> (
        manifest.infrastructure.monitoring.enabled
            && manifest.infrastructure.monitoring.dashboard.enabled),
        forall|i: int|
            0 <= i < enabled_services(manifest).len() ==> known_service(
                #[trigger] enabled_services(manifest)[i],
            ),
{
    lemma_mappings_differ();
    let services = enabled_services(manifest);
    let front = mapping_if(manifest.apps.frontend.enabled, frontend_mapping());
    let back = mapping_if(manifest.apps.backend.enabled, backend_mapping());
    let dash = mapping_if(dashboard_routed(manifest), dashboard_mapping());
    assert(services == front + back + dash);
    if manifest.apps.frontend.enabled {
        assert(services[0] == frontend_mapping());
    }
    if manifest.apps.backend.enabled {
        assert(services[front.len() as int] == backend_mapping());
    }
    if dashboard_routed(manifest) {
        assert(services[(front.len() + back.len()) as int] == dashboard_mapping());
    }
}

/// Every routing document belongs to one of the domains: it is among the
/// documents of the domain whose position is returned.
pub proof fn lemma_routing_document_origin(
    domains: Seq<Seq<char>>,
    services: Seq<ServiceMappingView>,
    k: int,
) -> (d: int)
    requires
        0 <= k < routing_documents(domains, services).len(),
    ensures
        0 <= d < domains.len(),
        domain_documents(domains[d], services).contains(routing_documents(domains, services)[k]),
    decreases domains.len(),
{
    let before = routing_documents(domains.drop_last(), services);
    if k < before.len() {
        lemma_routing_document_origin(domains.drop_last(), services, k)
    } else {
        let own = domain_documents(domains.last(), services);
        assert(routing_documents(domains, services)[k] == own[k - before.len()]);
        domains.len() - 1
    }
}

/// A routing document mentions only services that it was generated for.
pub proof fn lemma_mentioned_services_are_routed(
    domains: Seq<Seq<char>>,
    services: Seq<ServiceMappingView>,
    k: int,
    service: ServiceMappingView,
)
    requires
        0 <= k < routing_documents(domains, services).len(),
        mentions(routing_documents(domains, services)[k], service),
        known_service(service),
        forall|i: int| 0 <= i < services.len() ==> known_service(#[trigger] services[i]),
    ensures
        services.contains(service),
{
    lemma_mappings_differ();
    let document = routing_documents(domains, services)[k];
    let d = lemma_routing_document_origin(domains, services, k);
    let own = domain_documents(domains[d], services);
    let at = choose|at: int| 0 <= at < own.len() && own[at] == document;
    if at == 0 {
        let name = derived_name(domains[d]);
        let rules = services.map_values(|other: ServiceMappingView| dispatch_rule(name, other));
        let t = choose|t: int| 0 <= t < rules.len() && rules[t] == dispatch_rule(name, service);
        assert(services[t].path == service.path);
        assert(known_service(services[t]));
        assert(services[t] == service);
    } else {
        assert(document == virtual_server_route(domains[d], services[at - 1]));
        assert(known_service(services[at - 1]));
        assert(services[at - 1] == service);
    }
}

/// Routing follows enablement: no routing document of any domain mentions
/// a service that is not enabled, and the dashboard is mentioned only
/// where monitoring and the dashboard are both enabled.
pub proof fn lemma_disabled_services_are_not_routed(manifest: ManifestView, k: int)
    requires
        0 <= k < routing_documents(
            manifest.infrastructure.ingress.domains,
            enabled_services(manifest),
        ).len(),
    ensures
        ({
            let document = routing_documents(
                manifest.infrastructure.ingress.domains,
                enabled_services(manifest),
            )[k];
            &&& mentions(document, frontend_mapping()) ==> manifest.apps.frontend.enabled
            &&& mentions(document, backend_mapping()) ==> manifest.apps.backend.enabled
            &&& mentions(document, dashboard_mapping()) ==> manifest.infrastructure.monitoring.enabled
                && manifest.infrastructure.monitoring.dashboard.enabled
        }),
{
    let domains = manifest.infrastructure.ingress.domains;
    let services = enabled_services(manifest);
    let document = routing_documents(domains, services)[k];
    lemma_routed_iff_enabled(manifest);
    if mentions(document, frontend_mapping()) {
        lemma_mentioned_services_are_routed(domains, services, k, frontend_mapping());
    }
    if mentions(document, backend_mapping()) {
        lemma_mentioned_services_are_routed(domains, services, k, backend_mapping());
    }
    if mentions(document, dashboard_mapping()) {
        lemma_mentioned_services_are_routed(domains, services, k, dashboard_mapping());
    }
}

/// The virtual server of a domain mentions exactly the services that it
/// was generated for; so the dashboard appears in it if and only if
/// monitoring and the dashboard are both enabled.
pub proof fn lemma_virtual_server_mentions_enabled_services(
    manifest: ManifestView,
    domain: Seq<char>,
)
    ensures
        ({
            let server = virtual_server(domain, enabled_services(manifest));
            &&& mentions(server, frontend_mapping()) <==> manifest.apps.frontend.enabled
            &&& mentions(server, backend_mapping()) <==> manifest.apps.backend.enabled
            &&& mentions(server, dashboard_mapping()) <==> manifest.infrastructure.monitoring.enabled
                && manifest.infrastructure.monitoring.dashboard.enabled
        }),
{
    let services = enabled_services(manifest);
    let single = seq![domain];
    lemma_single_domain(domain, services);
    assert(routing_documents(single, services)[0] == virtual_server(domain, services));
    lemma_routed_iff_enabled(manifest);
    if manifest.apps.frontend.enabled {
        lemma_rules_of_routed_services(domain, services, frontend_mapping());
    }
    if manifest.apps.backend.enabled {
        lemma_rules_of_routed_services(domain, services, backend_mapping());
    }
    if dashboard_routed(manifest) {
        lemma_rules_of_routed_services(domain, services, dashboard_mapping());
    }
    let manifest_of_one = ManifestView {
        apps: manifest.apps,
        infrastructure: InfrastructureView {
            ingress: IngressView {
                enabled: manifest.infrastructure.ingress.enabled,
                domains: single,
                tls: manifest.infrastructure.ingress.tls,
            },
            monitoring: manifest.infrastructure.monitoring,
        },
    };
    assert(enabled_services(manifest_of_one) == services);
    lemma_disabled_services_are_not_routed(manifest_of_one, 0);
}

/// The routing documents of a single domain are the documents of that
/// domain.
pub proof fn lemma_single_domain(domain: Seq<char>, services: Seq<ServiceMappingView>)
    ensures
        routing_documents(seq![domain], services) == domain_documents(domain, services),
{
    let single = seq![domain];
    assert(single.drop_last() =~= Seq::<Seq<char>>::empty());
    assert(single.last() == domain);
    assert(routing_documents(single.drop_last(), services) =~= Seq::<DocumentView>::empty());
    assert(routing_documents(single, services) =~= domain_documents(domain, services));
}

/// A virtual server has a rule for every service that it was generated for.
proof fn lemma_rules_of_routed_services(
    domain: Seq<char>,
    services: Seq<ServiceMappingView>,
    service: ServiceMappingView,
)
    requires
        services.contains(service),
    ensures
        mentions(virtual_server(domain, services), service),
{
    let name = derived_name(domain);
    let rules = services.map_values(|other: ServiceMappingView| dispatch_rule(name, other));
    let t = choose|t: int| 0 <= t < services.len() && services[t] == service;
    assert(rules[t] == dispatch_rule(name, service));
}

/// Routing keeps the order of the domains: the documents of a list of
/// domains are those of its front part followed by those of its rear part.
pub proof fn lemma_routing_documents_concat(
    front: Seq<Seq<char>>,
    rear: Seq<Seq<char>>,
    services: Seq<ServiceMappingView>,
)
    ensures
        routing_documents(front + rear, services) == routing_documents(front, services)
            + routing_documents(rear, services),
    decreases rear.len(),
{
    if rear.len() == 0 {
        assert(front + rear =~= front);
        assert(routing_documents(front, services) + routing_documents(rear, services)
            =~= routing_documents(front, services));
    } else {
        lemma_routing_documents_concat(front, rear.drop_last(), services);
        assert((front + rear).drop_last() =~= front + rear.drop_last());
        assert((front + rear).last() == rear.last());
        assert(routing_documents(front + rear, services) =~= routing_documents(front, services)
            + routing_documents(rear, services));
    }
}

/// With two domains, every document of the first comes before every
/// document of the second, and each document names its own domain as host.
pub proof fn lemma_two_domains_in_order(
    first: Seq<char>,
    second: Seq<char>,
    services: Seq<ServiceMappingView>,
)
    ensures
        routing_documents(seq![first, second], services) == domain_documents(first, services)
            + domain_documents(second, services),
        forall|k: int|
            0 <= k < domain_documents(first, services).len() ==> host_of(
                #[trigger] domain_documents(first, services)[k],
            ) == Some(first),
        forall|k: int|
            0 <= k < domain_documents(second, services).len() ==> host_of(
                #[trigger] domain_documents(second, services)[k],
            ) == Some(second),
{
    lemma_single_domain(first, services);
    lemma_single_domain(second, services);
    assert(seq![first, second] =~= seq![first] + seq![second]);
    lemma_routing_documents_concat(seq![first], seq![second], services);
}

} // verus!
