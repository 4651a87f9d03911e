//! The resources that are generated, as values and as manifest text.

use vstd::prelude::*;
use crate::model::PullPolicy;
use crate::model::ServiceType;
use crate::text::decimal;
use crate::text::decimal_string;
use crate::text::join;
use crate::text::join_strings;

verus! {

/// By how many columns the list of a virtual server's routes is indented.
pub const ROUTE_LIST_INDENT: usize = 2;

/// One entry of a virtual server's routes: requests under `path` go to the
/// route named `target`.
#[derive(Clone, Debug, PartialEq, Eq)]
pub struct DispatchRule {
    pub path: String,
    pub target: String,
}

pub struct DispatchRuleView {
    pub path: Seq<char>,
    pub target: Seq<char>,
}

impl View for DispatchRule {
    type V = DispatchRuleView;

    open spec fn view(&self) -> DispatchRuleView {
        DispatchRuleView { path: self.path@, target: self.target@ }
    }
}

impl DeepView for DispatchRule {
    type V = DispatchRuleView;

    open spec fn deep_view(&self) -> DispatchRuleView {
        self@
    }
}

impl DispatchRuleView {
    /// The two lines of the rule as a list item.
    pub open spec fn text(self) -> Seq<char> {
        "- path: "@ + self.path + "\n  route: "@ + self.target
    }
}

impl DispatchRule {
    /// Writes the rule as a list item of two lines.
    pub fn render(&self) -> (text: String)
        ensures
            text@ == self@.text(),
    {
        let mut text = String::from_str("- path: ");
        text.append(self.path.as_str());
        text.append("\n  route: ");
        text.append(self.target.as_str());
        text
    }
}

/// One generated resource.
#[derive(Clone, Debug, PartialEq, Eq)]
pub enum ResourceDocument {
    /// Runs `replicas` copies of `image`.
    Workload {
        namespace: String,
        name: String,
        replicas: u16,
        image: String,
        pull_policy: PullPolicy,
        container_port: u16,
    },
    /// Exposes the workload of the same name.
    Exposure { namespace: String, name: String, service_type: ServiceType, port: u16, target_port: u16 },
    /// The chart repository of the ingress controller.
    HelmRepository { name: String, namespace: String, interval: String, url: String },
    /// The release that installs the ingress controller.
    HelmRelease {
        name: String,
        namespace: String,
        interval: String,
        repository: String,
        chart: String,
        version: String,
        controller: String,
        cert_manager: bool,
        latency_metrics: bool,
        prometheus: bool,
    },
    /// Routes the traffic of one host: which path goes to which route.
    VirtualServer {
        name: String,
        namespace: String,
        host: String,
        tls_secret: String,
        routes: Vec<DispatchRule>,
    },
    /// Passes one host's traffic under one path to one service.
    VirtualServerRoute {
        name: String,
        namespace: String,
        host: String,
        upstream: String,
        service: String,
        port: u16,
        path: String,
        pass: String,
    },
}

pub enum DocumentView {
    Workload {
        namespace: Seq<char>,
        name: Seq<char>,
        replicas: u16,
        image: Seq<char>,
        pull_policy: PullPolicy,
        container_port: u16,
    },
    Exposure {
        namespace: Seq<char>,
        name: Seq<char>,
        service_type: ServiceType,
        port: u16,
        target_port: u16,
    },
    HelmRepository { name: Seq<char>, namespace: Seq<char>, interval: Seq<char>, url: Seq<char> },
    HelmRelease {
        name: Seq<char>,
        namespace: Seq<char>,
        interval: Seq<char>,
        repository: Seq<char>,
        chart: Seq<char>,
        version: Seq<char>,
        controller: Seq<char>,
        cert_manager: bool,
        latency_metrics: bool,
        prometheus: bool,
    },
    VirtualServer {
        name: Seq<char>,
        namespace: Seq<char>,
        host: Seq<char>,
        tls_secret: Seq<char>,
        routes: Seq<DispatchRuleView>,
    },
    VirtualServerRoute {
        name: Seq<char>,
        namespace: Seq<char>,
        host: Seq<char>,
        upstream: Seq<char>,
        service: Seq<char>,
        port: u16,
        path: Seq<char>,
        pass: Seq<char>,
    },
}

impl View for ResourceDocument {
    type V = DocumentView;

    open spec fn view(&self) -> DocumentView {
        match *self {
            ResourceDocument::Workload {
                namespace,
                name,
                replicas,
                image,
                pull_policy,
                container_port,
            } => DocumentView::Workload {
                namespace: namespace@,
                name: name@,
                replicas,
                image: image@,
                pull_policy,
                container_port,
            },
            ResourceDocument::Exposure { namespace, name, service_type, port, target_port } => {
                DocumentView::Exposure {
                    namespace: namespace@,
                    name: name@,
                    service_type,
                    port,
                    target_port,
                }
            },
            ResourceDocument::HelmRepository { name, namespace, interval, url } => {
                DocumentView::HelmRepository {
                    name: name@,
                    namespace: namespace@,
                    interval: interval@,
                    url: url@,
                }
            },
            ResourceDocument::HelmRelease {
                name,
                namespace,
                interval,
                repository,
                chart,
                version,
                controller,
                cert_manager,
                latency_metrics,
                prometheus,
            } => DocumentView::HelmRelease {
                name: name@,
                namespace: namespace@,
                interval: interval@,
                repository: repository@,
                chart: chart@,
                version: version@,
                controller: controller@,
                cert_manager,
                latency_metrics,
                prometheus,
            },
            ResourceDocument::VirtualServer { name, namespace, host, tls_secret, routes } => {
                DocumentView::VirtualServer {
                    name: name@,
                    namespace: namespace@,
                    host: host@,
                    tls_secret: tls_secret@,
                    routes: routes.deep_view(),
                }
            },
            ResourceDocument::VirtualServerRoute {
                name,
                namespace,
                host,
                upstream,
                service,
                port,
                path,
                pass,
            } => DocumentView::VirtualServerRoute {
                name: name@,
                namespace: namespace@,
                host: host@,
                upstream: upstream@,
                service: service@,
                port,
                path: path@,
                pass: pass@,
            },
        }
    }
}

impl DeepView for ResourceDocument {
    type V = DocumentView;

    open spec fn deep_view(&self) -> DocumentView {
        self@
    }
}

/// How a manifest writes a switch.
pub open spec fn flag_text(flag: bool) -> Seq<char> {
    if flag {
        "true"@
    } else {
        "false"@
    }
}

fn flag_str(flag: bool) -> (text: &'static str)
    ensures
        text@ == flag_text(flag),
{
    if flag {
        "true"
    } else {
        "false"
    }
}

/// The text of a workload: how many replicas of which image run, and on
/// which container port they listen.
pub open spec fn workload_text(
    namespace: Seq<char>,
    name: Seq<char>,
    replicas: u16,
    image: Seq<char>,
    pull_policy: PullPolicy,
    container_port: u16,
) -> Seq<char> {
    "apiVersion: apps/v1\nkind: Deployment\nmetadata:\n  namespace: "@
        + namespace
        + "\n  name: "@
        + name
        + "\nspec:\n  replicas: "@
        + decimal(replicas as nat)
        + "\n  selector:\n    matchLabels:\n      app: "@
        + name
        + "\n  template:\n    metadata:\n      labels:\n        app: "@
        + name
        + "\n    spec:\n      containers:\n      - name: "@
        + name
        + "\n        image: "@
        + image
        + "\n        imagePullPolicy: "@
        + pull_policy.text()
        + "\n        ports:\n        - containerPort: "@
        + decimal(container_port as nat)
}

/// Writes a workload: how many replicas of which image run, and on which port.
pub fn write_workload(
    namespace: &str,
    name: &str,
    replicas: u16,
    image: &str,
    pull_policy: PullPolicy,
    container_port: u16,
) -> (text: String)
    ensures
        text@ == workload_text(namespace@, name@, replicas, image@, pull_policy, container_port),
{
    let mut text = String::from_str("apiVersion: apps/v1\nkind: Deployment\nmetadata:\n  namespace: ");
    text.append(namespace);
    text.append("\n  name: ");
    text.append(name);
    text.append("\nspec:\n  replicas: ");
    text.append(decimal_string(replicas).as_str());
    text.append("\n  selector:\n    matchLabels:\n      app: ");
    text.append(name);
    text.append("\n  template:\n    metadata:\n      labels:\n        app: ");
    text.append(name);
    text.append("\n    spec:\n      containers:\n      - name: ");
    text.append(name);
    text.append("\n        image: ");
    text.append(image);
    text.append("\n        imagePullPolicy: ");
    text.append(pull_policy.to_string().as_str());
    text.append("\n        ports:\n        - containerPort: ");
    text.append(decimal_string(container_port).as_str());
    text
}

/// The text of a service, which exposes a workload to the network.
pub open spec fn exposure_text(
    namespace: Seq<char>,
    name: Seq<char>,
    service_type: ServiceType,
    port: u16,
    target_port: u16,
) -> Seq<char> {
    "apiVersion: v1\nkind: Service\nmetadata:\n  namespace: "@
        + namespace
        + "\n  name: "@
        + name
        + "\nspec:\n  type: "@
        + service_type.text()
        + "\n  selector:\n    app: "@
        + name
        + "\n  ports:\n  - port: "@
        + decimal(port as nat)
        + "\n    targetPort: "@
        + decimal(target_port as nat)
}

/// Writes a service: how a workload is exposed to the network.
pub fn write_exposure(
    namespace: &str,
    name: &str,
    service_type: ServiceType,
    port: u16,
    target_port: u16,
) -> (text: String)
    ensures
        text@ == exposure_text(namespace@, name@, service_type, port, target_port),
{
    let mut text = String::from_str("apiVersion: v1\nkind: Service\nmetadata:\n  namespace: ");
    text.append(namespace);
    text.append("\n  name: ");
    text.append(name);
    text.append("\nspec:\n  type: ");
    text.append(service_type.to_string().as_str());
    text.append("\n  selector:\n    app: ");
    text.append(name);
    text.append("\n  ports:\n  - port: ");
    text.append(decimal_string(port).as_str());
    text.append("\n    targetPort: ");
    text.append(decimal_string(target_port).as_str());
    text
}

/// The text of the chart repository from which the ingress controller is
/// installed.
pub open spec fn helm_repository_text(
    name: Seq<char>,
    namespace: Seq<char>,
    interval: Seq<char>,
    url: Seq<char>,
) -> Seq<char> {
    "apiVersion: source.toolkit.fluxcd.io/v1beta1\nkind: HelmRepository\nmetadata:\n  name: "@
        + name
        + "\n  namespace: "@
        + namespace
        + "\nspec:\n  interval: "@
        + interval
        + "\n  url: \""@
        + url
        + "\""@
}

/// Writes a chart repository.
pub fn write_helm_repository(
    name: &str,
    namespace: &str,
    interval: &str,
    url: &str,
) -> (text: String)
    ensures
        text@ == helm_repository_text(name@, namespace@, interval@, url@),
{
    let mut text = String::from_str("apiVersion: source.toolkit.fluxcd.io/v1beta1\nkind: HelmRepository\nmetadata:\n  name: ");
    text.append(name);
    text.append("\n  namespace: ");
    text.append(namespace);
    text.append("\nspec:\n  interval: ");
    text.append(interval);
    text.append("\n  url: \"");
    text.append(url);
    text.append("\"");
    text
}

/// The text of the ingress controller's chart release.
pub open spec fn helm_release_text(
    name: Seq<char>,
    namespace: Seq<char>,
    interval: Seq<char>,
    repository: Seq<char>,
    chart: Seq<char>,
    version: Seq<char>,
    controller: Seq<char>,
    cert_manager: bool,
    latency_metrics: bool,
    prometheus: bool,
) -> Seq<char> {
    "apiVersion: helm.toolkit.fluxcd.io/v2beta1\nkind: HelmRelease\nmetadata:\n  name: "@
        + name
        + "\n  namespace: "@
        + namespace
        + "\nspec:\n  chart:\n    spec:\n      sourceRef:\n        kind: HelmRepository\n        name: "@
        + repository
        + "\n      chart: "@
        + chart
        + "\n      version: "@
        + version
        + "\n  interval: "@
        + interval
        + "\n  values:\n    controller:\n      enableCertManager: "@
        + flag_text(cert_manager)
        + "\n      name: "@
        + controller
        + "\n      enableLatencyMetrics: "@
        + flag_text(latency_metrics)
        + "\n      config:\n        name: "@
        + controller
        + "\n      service:\n        name: "@
        + controller
        + "\n      serviceAccount:\n        name: "@
        + controller
        + "\n      reportIngressStatus:\n        leaderElectionLockName: "@
        + controller
        + "-leader-election\n    prometheus:\n      create: "@
        + flag_text(prometheus)
}

/// Writes a chart release of the ingress controller.
pub fn write_helm_release(
    name: &str,
    namespace: &str,
    interval: &str,
    repository: &str,
    chart: &str,
    version: &str,
    controller: &str,
    cert_manager: bool,
    latency_metrics: bool,
    prometheus: bool,
) -> (text: String)
    ensures
        text@ == helm_release_text(name@, namespace@, interval@, repository@, chart@, version@, controller@, cert_manager, latency_metrics, prometheus),
{
    let mut text = String::from_str("apiVersion: helm.toolkit.fluxcd.io/v2beta1\nkind: HelmRelease\nmetadata:\n  name: ");
    text.append(name);
    text.append("\n  namespace: ");
    text.append(namespace);
    text.append("\nspec:\n  chart:\n    spec:\n      sourceRef:\n        kind: HelmRepository\n        name: ");
    text.append(repository);
    text.append("\n      chart: ");
    text.append(chart);
    text.append("\n      version: ");
    text.append(version);
    text.append("\n  interval: ");
    text.append(interval);
    text.append("\n  values:\n    controller:\n      enableCertManager: ");
    text.append(flag_str(cert_manager));
    text.append("\n      name: ");
    text.append(controller);
    text.append("\n      enableLatencyMetrics: ");
    text.append(flag_str(latency_metrics));
    text.append("\n      config:\n        name: ");
    text.append(controller);
    text.append("\n      service:\n        name: ");
    text.append(controller);
    text.append("\n      serviceAccount:\n        name: ");
    text.append(controller);
    text.append("\n      reportIngressStatus:\n        leaderElectionLockName: ");
    text.append(controller);
    text.append("-leader-election\n    prometheus:\n      create: ");
    text.append(flag_str(prometheus));
    text
}

/// The text of a virtual server: its head, followed by the list of its
/// routes as `routes` gives it.
pub open spec fn virtual_server_text(
    name: Seq<char>,
    namespace: Seq<char>,
    host: Seq<char>,
    tls_secret: Seq<char>,
    routes: Seq<char>,
) -> Seq<char> {
    "apiVersion: k8s.nginx.org/v1\nkind: VirtualServer\nmetadata:\n  name: "@
        + name
        + "\n  namespace: "@
        + namespace
        + "\nspec:\n  host: "@
        + host
        + "\n  tls:\n    secret: "@
        + tls_secret
        + "\n  routes:\n  "@
        + routes
}

/// Writes a virtual server: its head, followed by the list of its routes
/// as `routes` gives it.
pub fn write_virtual_server(
    name: &str,
    namespace: &str,
    host: &str,
    tls_secret: &str,
    routes: &str,
) -> (text: String)
    ensures
        text@ == virtual_server_text(name@, namespace@, host@, tls_secret@, routes@),
{
    let mut text = String::from_str("apiVersion: k8s.nginx.org/v1\nkind: VirtualServer\nmetadata:\n  name: ");
    text.append(name);
    text.append("\n  namespace: ");
    text.append(namespace);
    text.append("\nspec:\n  host: ");
    text.append(host);
    text.append("\n  tls:\n    secret: ");
    text.append(tls_secret);
    text.append("\n  routes:\n  ");
    text.append(routes);
    text
}

/// The text of the route that leads one host's traffic for one path to one
/// service.
pub open spec fn virtual_server_route_text(
    name: Seq<char>,
    namespace: Seq<char>,
    host: Seq<char>,
    upstream: Seq<char>,
    service: Seq<char>,
    port: u16,
    path: Seq<char>,
    pass: Seq<char>,
) -> Seq<char> {
    "apiVersion: k8s.nginx.org/v1\nkind: VirtualServerRoute\nmetadata:\n  name: "@
        + name
        + "\n  namespace: "@
        + namespace
        + "\nspec:\n  host: "@
        + host
        + "\n  upstreams:\n  - name: "@
        + upstream
        + "\n    service: "@
        + service
        + "\n    port: "@
        + decimal(port as nat)
        + "\n  subroutes:\n  - path: "@
        + path
        + "\n    action:\n        pass: "@
        + pass
}

/// Writes the route of one service under one host.
pub fn write_virtual_server_route(
    name: &str,
    namespace: &str,
    host: &str,
    upstream: &str,
    service: &str,
    port: u16,
    path: &str,
    pass: &str,
) -> (text: String)
    ensures
        text@ == virtual_server_route_text(name@, namespace@, host@, upstream@, service@, port, path@, pass@),
{
    let mut text = String::from_str("apiVersion: k8s.nginx.org/v1\nkind: VirtualServerRoute\nmetadata:\n  name: ");
    text.append(name);
    text.append("\n  namespace: ");
    text.append(namespace);
    text.append("\nspec:\n  host: ");
    text.append(host);
    text.append("\n  upstreams:\n  - name: ");
    text.append(upstream);
    text.append("\n    service: ");
    text.append(service);
    text.append("\n    port: ");
    text.append(decimal_string(port).as_str());
    text.append("\n  subroutes:\n  - path: ");
    text.append(path);
    text.append("\n    action:\n        pass: ");
    text.append(pass);
    text
}

/// What `timpl_internal::indent` returns for a width and a text.
pub uninterp spec fn indented(width: usize, text: Seq<char>) -> Seq<char>;

/// Calls `timpl_internal::indent`, which puts `width` spaces before every
/// line of `text` but the first and those that hold only white space. The
/// contract only names the result; `width` stays within what a string can
/// hold, beyond which the outside function panics.
#[verifier::external_body]
fn indent_block(width: usize, text: String) -> (block: String)
    requires
        width <= isize::MAX,
    ensures
        block@ == indented(width, text@),
{
    timpl_internal::indent(width, text)
}

/// The list items of the rules, one under the other.
pub open spec fn routes_text(routes: Seq<DispatchRuleView>) -> Seq<char> {
    join(routes.map_values(|rule: DispatchRuleView| rule.text()), "\n"@)
}

/// Writes the rules as list items, one under the other.
pub fn write_routes(routes: &Vec<DispatchRule>) -> (text: String)
    ensures
        text@ == routes_text(routes.deep_view()),
{
    let mut items: Vec<String> = Vec::new();
    let mut i: usize = 0;
    while i < routes.len()
        invariant
            i <= routes.len(),
            items.len() == i,
            forall|k: int| 0 <= k < i ==> items[k]@ == routes[k]@.text(),
        decreases routes.len() - i,
    {
        items.push(routes[i].render());
        i += 1;
    }
    assert(items.deep_view() =~= routes.deep_view().map_values(
        |rule: DispatchRuleView| rule.text(),
    ));
    join_strings(&items, "\n")
}

impl DocumentView {
    /// The manifest text of the resource.
    pub open spec fn text(self) -> Seq<char> {
        match self {
            DocumentView::Workload {
                namespace,
                name,
                replicas,
                image,
                pull_policy,
                container_port,
            } => workload_text(namespace, name, replicas, image, pull_policy, container_port),
            DocumentView::Exposure { namespace, name, service_type, port, target_port } => {
                exposure_text(namespace, name, service_type, port, target_port)
            },
            DocumentView::HelmRepository { name, namespace, interval, url } => {
                helm_repository_text(name, namespace, interval, url)
            },
            DocumentView::HelmRelease {
                name,
                namespace,
                interval,
                repository,
                chart,
                version,
                controller,
                cert_manager,
                latency_metrics,
                prometheus,
            } => helm_release_text(
                name,
                namespace,
                interval,
                repository,
                chart,
                version,
                controller,
                cert_manager,
                latency_metrics,
                prometheus,
            ),
            DocumentView::VirtualServer { name, namespace, host, tls_secret, routes } => {
                virtual_server_text(
                    name,
                    namespace,
                    host,
                    tls_secret,
                    indented(ROUTE_LIST_INDENT, routes_text(routes)),
                )
            },
            DocumentView::VirtualServerRoute {
                name,
                namespace,
                host,
                upstream,
                service,
                port,
                path,
                pass,
            } => virtual_server_route_text(
                name,
                namespace,
                host,
                upstream,
                service,
                port,
                path,
                pass,
            ),
        }
    }
}

/// The manifest text of each resource, in order.
pub open spec fn texts(documents: Seq<DocumentView>) -> Seq<Seq<char>> {
    documents.map_values(|document: DocumentView| document.text())
}

impl ResourceDocument {
    /// Writes the resource as manifest text.
    pub fn render(&self) -> (text: String)
        ensures
            text@ == self@.text(),
    {
        match self {
            ResourceDocument::Workload {
                namespace,
                name,
                replicas,
                image,
                pull_policy,
                container_port,
            } => write_workload(
                namespace.as_str(),
                name.as_str(),
                *replicas,
                image.as_str(),
                *pull_policy,
                *container_port,
            ),
            ResourceDocument::Exposure { namespace, name, service_type, port, target_port } => {
                write_exposure(namespace.as_str(), name.as_str(), *service_type, *port, *target_port)
            },
            ResourceDocument::HelmRepository { name, namespace, interval, url } => {
                write_helm_repository(
                    name.as_str(),
                    namespace.as_str(),
                    interval.as_str(),
                    url.as_str(),
                )
            },
            ResourceDocument::HelmRelease {
                name,
                namespace,
                interval,
                repository,
                chart,
                version,
                controller,
                cert_manager,
                latency_metrics,
                prometheus,
            } => write_helm_release(
                name.as_str(),
                namespace.as_str(),
                interval.as_str(),
                repository.as_str(),
                chart.as_str(),
                version.as_str(),
                controller.as_str(),
                *cert_manager,
                *latency_metrics,
                *prometheus,
            ),
            ResourceDocument::VirtualServer { name, namespace, host, tls_secret, routes } => {
                let list = indent_block(ROUTE_LIST_INDENT, write_routes(routes));
                write_virtual_server(
                    name.as_str(),
                    namespace.as_str(),
                    host.as_str(),
                    tls_secret.as_str(),
                    list.as_str(),
                )
            },
            ResourceDocument::VirtualServerRoute {
                name,
                namespace,
                host,
                upstream,
                service,
                port,
                path,
                pass,
            } => write_virtual_server_route(
                name.as_str(),
                namespace.as_str(),
                host.as_str(),
                upstream.as_str(),
                service.as_str(),
                *port,
                path.as_str(),
                pass.as_str(),
            ),
        }
    }
}

/// Writes every resource as manifest text, keeping the order.
pub fn render_all(documents: &Vec<ResourceDocument>) -> (rendered: Vec<String>)
    ensures
        rendered.deep_view() == texts(documents.deep_view()),
{
    let mut rendered: Vec<String> = Vec::new();
    let mut i: usize = 0;
    while i < documents.len()
        invariant
            i <= documents.len(),
            rendered.len() == i,
            forall|k: int| 0 <= k < i ==> rendered[k]@ == documents[k]@.text(),
        decreases documents.len() - i,
    {
        rendered.push(documents[i].render());
        i += 1;
    }
    assert(rendered.deep_view() =~= texts(documents.deep_view()));
    rendered
}

} // verus!
