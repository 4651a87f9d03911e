//! Packages: each emits the resources of one part of a cluster, and a
//! deployment runs a list of them against one configuration.

use vstd::prelude::*;
use crate::consts::APPS_NAMESPACE;
use crate::consts::BACKEND_NAME;
use crate::consts::BACKEND_PORT;
use crate::consts::FRONTEND_NAME;
use crate::consts::FRONTEND_PORT;
use crate::consts::INGRESS_CHART;
use crate::consts::INGRESS_CHART_REPOSITORY;
use crate::consts::INGRESS_CHART_VERSION;
use crate::consts::INGRESS_NAME;
use crate::consts::INGRESS_SYSTEM_NAMESPACE;
use crate::consts::RECONCILIATION_INTERVAL;
use crate::document::render_all;
use crate::document::texts;
use crate::document::DocumentView;
use crate::document::ResourceDocument;
use crate::model::AppView;
use crate::model::AppsView;
use crate::model::ClusterConfig;
use crate::model::ClusterConfigView;
use crate::model::Image;
use crate::model::ImageView;
use crate::model::ManifestView;
use crate::model::ServiceType;
use crate::routing::enabled_services;
use crate::routing::routing_documents;
use crate::routing::routing_resources;
use crate::routing::service_mappings;

verus! {

/// A unit that emits resources for a cluster configuration.
pub trait Package {
    /// The resources that the package emits for `config`, in order.
    spec fn emitted(&self, config: ClusterConfigView) -> Seq<DocumentView>;

    /// Emits the package's resources as values.
    fn documents(&self, config: &ClusterConfig) -> (documents: Vec<ResourceDocument>)
        ensures
            documents.deep_view() == self.emitted(config@),
    ;

    /// Emits the package's resources as manifest text.
    fn resources(&self, config: &ClusterConfig) -> (rendered: Vec<String>)
        ensures
            rendered.deep_view() == texts(self.emitted(config@)),
    ;
}

/// The workload of an application: `replicas` copies of `image`.
pub open spec fn workload_of(
    name: Seq<char>,
    container_port: u16,
    replicas: u16,
    image: ImageView,
) -> DocumentView {
    DocumentView::Workload {
        namespace: APPS_NAMESPACE@,
        name,
        replicas,
        image: image.reference.text(),
        pull_policy: image.pull_policy,
        container_port,
    }
}

/// The service of an application; it listens on the port that it targets.
pub open spec fn exposure_of(name: Seq<char>, port: u16, service_type: ServiceType) -> DocumentView {
    DocumentView::Exposure {
        namespace: APPS_NAMESPACE@,
        name,
        service_type,
        port,
        target_port: port,
    }
}

/// The two resources of an application: its workload, then its service.
/// Whether the application is enabled plays no part in them.
pub open spec fn application_documents(name: Seq<char>, port: u16, app: AppView) -> Seq<
    DocumentView,
> {
    seq![workload_of(name, port, app.replicas, app.image), exposure_of(name, port, app.service_type)]
}

fn application_resources(
    name: &str,
    port: u16,
    replicas: u16,
    image: &Image,
    service_type: ServiceType,
) -> (documents: Vec<ResourceDocument>)
    ensures
        documents.deep_view() == seq![
            workload_of(name@, port, replicas, image@),
            exposure_of(name@, port, service_type),
        ],
{
    let mut documents: Vec<ResourceDocument> = Vec::new();
    documents.push(
        ResourceDocument::Workload {
            namespace: String::from_str(APPS_NAMESPACE),
            name: String::from_str(name),
            replicas,
            image: image.reference.to_string(),
            pull_policy: image.pull_policy,
            container_port: port,
        },
    );
    documents.push(
        ResourceDocument::Exposure {
            namespace: String::from_str(APPS_NAMESPACE),
            name: String::from_str(name),
            service_type,
            port,
            target_port: port,
        },
    );
    assert(documents.deep_view() =~= seq![
        workload_of(name@, port, replicas, image@),
        exposure_of(name@, port, service_type),
    ]);
    documents
}

/// Emits the frontend's workload and service.
#[derive(Clone, Copy, Debug, PartialEq, Eq)]
pub struct FrontendPackage {}

impl Package for FrontendPackage {
    open spec fn emitted(&self, config: ClusterConfigView) -> Seq<DocumentView> {
        application_documents(FRONTEND_NAME@, FRONTEND_PORT, config.manifest.apps.frontend)
    }

    fn documents(&self, config: &ClusterConfig) -> (documents: Vec<ResourceDocument>) {
        let app = &config.manifest.apps.frontend;
        application_resources(
            FRONTEND_NAME,
            FRONTEND_PORT,
            app.replicas,
            &app.image,
            app.service_type,
        )
    }

    fn resources(&self, config: &ClusterConfig) -> (rendered: Vec<String>) {
        render_all(&self.documents(config))
    }
}

/// Emits the backend's workload and service.
#[derive(Clone, Copy, Debug, PartialEq, Eq)]
pub struct BackendPackage {}

impl Package for BackendPackage {
    open spec fn emitted(&self, config: ClusterConfigView) -> Seq<DocumentView> {
        application_documents(BACKEND_NAME@, BACKEND_PORT, config.manifest.apps.backend)
    }

    fn documents(&self, config: &ClusterConfig) -> (documents: Vec<ResourceDocument>) {
        let app = &config.manifest.apps.backend;
        application_resources(
            BACKEND_NAME,
            BACKEND_PORT,
            app.replicas,
            &app.image,
            app.service_type,
        )
    }

    fn resources(&self, config: &ClusterConfig) -> (rendered: Vec<String>) {
        render_all(&self.documents(config))
    }
}

/// The chart repository of the ingress controller.
pub open spec fn ingress_repository() -> DocumentView {
    DocumentView::HelmRepository {
        name: INGRESS_NAME@,
        namespace: INGRESS_SYSTEM_NAMESPACE@,
        interval: RECONCILIATION_INTERVAL@,
        url: INGRESS_CHART_REPOSITORY@,
    }
}

/// The release of the ingress controller: with certificate manager and
/// latency metrics, without a Prometheus of its own.
pub open spec fn ingress_release() -> DocumentView {
    DocumentView::HelmRelease {
        name: INGRESS_NAME@,
        namespace: INGRESS_SYSTEM_NAMESPACE@,
        interval: RECONCILIATION_INTERVAL@,
        repository: INGRESS_NAME@,
        chart: INGRESS_CHART@,
        version: INGRESS_CHART_VERSION@,
        controller: INGRESS_NAME@,
        cert_manager: true,
        latency_metrics: true,
        prometheus: false,
    }
}

/// Installs the ingress controller: emits its chart repository and its
/// release, the same for every configuration.
#[derive(Clone, Copy, Debug, PartialEq, Eq)]
pub struct IngressSystemPackage {}

impl Package for IngressSystemPackage {
    open spec fn emitted(&self, config: ClusterConfigView) -> Seq<DocumentView> {
        seq![ingress_repository(), ingress_release()]
    }

    fn documents(&self, config: &ClusterConfig) -> (documents: Vec<ResourceDocument>) {
        let mut documents: Vec<ResourceDocument> = Vec::new();
        documents.push(
            ResourceDocument::HelmRepository {
                name: String::from_str(INGRESS_NAME),
                namespace: String::from_str(INGRESS_SYSTEM_NAMESPACE),
                interval: String::from_str(RECONCILIATION_INTERVAL),
                url: String::from_str(INGRESS_CHART_REPOSITORY),
            },
        );
        documents.push(
            ResourceDocument::HelmRelease {
                name: String::from_str(INGRESS_NAME),
                namespace: String::from_str(INGRESS_SYSTEM_NAMESPACE),
                interval: String::from_str(RECONCILIATION_INTERVAL),
                repository: String::from_str(INGRESS_NAME),
                chart: String::from_str(INGRESS_CHART),
                version: String::from_str(INGRESS_CHART_VERSION),
                controller: String::from_str(INGRESS_NAME),
                cert_manager: true,
                latency_metrics: true,
                prometheus: false,
            },
        );
        assert(documents.deep_view() =~= self.emitted(config@));
        documents
    }

    fn resources(&self, config: &ClusterConfig) -> (rendered: Vec<String>) {
        render_all(&self.documents(config))
    }
}

/// Routes every domain of the configuration to the enabled services.
#[derive(Clone, Copy, Debug, PartialEq, Eq)]
pub struct IngressConfigPackage {}

impl Package for IngressConfigPackage {
    open spec fn emitted(&self, config: ClusterConfigView) -> Seq<DocumentView> {
        routing_documents(
            config.manifest.infrastructure.ingress.domains,
            enabled_services(config.manifest),
        )
    }

    fn documents(&self, config: &ClusterConfig) -> (documents: Vec<ResourceDocument>) {
        let services = service_mappings(&config.manifest);
        routing_resources(&config.manifest.infrastructure.ingress.domains, &services)
    }

    fn resources(&self, config: &ClusterConfig) -> (rendered: Vec<String>) {
        render_all(&self.documents(config))
    }
}

/// The manifest with the enablement of both applications set anew and
/// everything else kept.
pub open spec fn with_enablement(
    config: ClusterConfigView,
    frontend: bool,
    backend: bool,
) -> ClusterConfigView {
    ClusterConfigView {
        stage: config.stage,
        manifest: ManifestView {
            apps: AppsView {
                frontend: AppView {
                    enabled: frontend,
                    replicas: config.manifest.apps.frontend.replicas,
                    image: config.manifest.apps.frontend.image,
                    service_type: config.manifest.apps.frontend.service_type,
                },
                backend: AppView {
                    enabled: backend,
                    replicas: config.manifest.apps.backend.replicas,
                    image: config.manifest.apps.backend.image,
                    service_type: config.manifest.apps.backend.service_type,
                },
            },
            infrastructure: config.manifest.infrastructure,
        },
    }
}

/// The workload and the service of an application are emitted whether or
/// not it is enabled, and are the same either way: enablement decides
/// about routing only.
pub proof fn lemma_applications_emitted_regardless(
    config: ClusterConfigView,
    frontend: bool,
    backend: bool,
)
    ensures
        (FrontendPackage {  }).emitted(with_enablement(config, frontend, backend))
            == (FrontendPackage {  }).emitted(config),
        (BackendPackage {  }).emitted(with_enablement(config, frontend, backend))
            == (BackendPackage {  }).emitted(config),
        (FrontendPackage {  }).emitted(config).len() == 2,
        (BackendPackage {  }).emitted(config).len() == 2,
        (FrontendPackage {  }).emitted(config)[0] is Workload,
        (FrontendPackage {  }).emitted(config)[1] is Exposure,
        (BackendPackage {  }).emitted(config)[0] is Workload,
        (BackendPackage {  }).emitted(config)[1] is Exposure,
{
}

/// Any one of the packages.
#[derive(Clone, Copy, Debug, PartialEq, Eq)]
pub enum AnyPackage {
    Frontend(FrontendPackage),
    Backend(BackendPackage),
    IngressSystem(IngressSystemPackage),
    IngressConfig(IngressConfigPackage),
}

impl Package for AnyPackage {
    open spec fn emitted(&self, config: ClusterConfigView) -> Seq<DocumentView> {
        match *self {
            AnyPackage::Frontend(package) => package.emitted(config),
            AnyPackage::Backend(package) => package.emitted(config),
            AnyPackage::IngressSystem(package) => package.emitted(config),
            AnyPackage::IngressConfig(package) => package.emitted(config),
        }
    }

    fn documents(&self, config: &ClusterConfig) -> (documents: Vec<ResourceDocument>) {
        match self {
            AnyPackage::Frontend(package) => package.documents(config),
            AnyPackage::Backend(package) => package.documents(config),
            AnyPackage::IngressSystem(package) => package.documents(config),
            AnyPackage::IngressConfig(package) => package.documents(config),
        }
    }

    fn resources(&self, config: &ClusterConfig) -> (rendered: Vec<String>) {
        match self {
            AnyPackage::Frontend(package) => package.resources(config),
            AnyPackage::Backend(package) => package.resources(config),
            AnyPackage::IngressSystem(package) => package.resources(config),
            AnyPackage::IngressConfig(package) => package.resources(config),
        }
    }
}

/// What the packages emit for `config`: package after package in the order
/// of the list, each package's resources in the order in which it emits
/// them.
pub open spec fn emitted_by(packages: Seq<AnyPackage>, config: ClusterConfigView) -> Seq<
    DocumentView,
>
    decreases packages.len(),
{
    if packages.len() == 0 {
        Seq::empty()
    } else {
        emitted_by(packages.drop_last(), config) + packages.last().emitted(config)
    }
}

/// The packages keep their order in the output: what a list of packages
/// emits is what its front part emits, followed by what its rear part
/// emits.
pub proof fn lemma_emitted_by_concat(
    front: Seq<AnyPackage>,
    rear: Seq<AnyPackage>,
    config: ClusterConfigView,
)
    ensures
        emitted_by(front + rear, config) == emitted_by(front, config) + emitted_by(rear, config),
    decreases rear.len(),
{
    if rear.len() == 0 {
        assert(front + rear =~= front);
        assert(emitted_by(front, config) + emitted_by(rear, config) =~= emitted_by(front, config));
    } else {
        lemma_emitted_by_concat(front, rear.drop_last(), config);
        assert((front + rear).drop_last() =~= front + rear.drop_last());
        assert((front + rear).last() == rear.last());
        assert(emitted_by(front + rear, config) =~= emitted_by(front, config) + emitted_by(
            rear,
            config,
        ));
    }
}

/// One cluster configuration and the packages that run against it.
#[derive(Clone, Debug, PartialEq, Eq)]
pub struct Deployment {
    pub config: ClusterConfig,
    pub packages: Vec<AnyPackage>,
}

pub struct DeploymentView {
    pub config: ClusterConfigView,
    pub packages: Seq<AnyPackage>,
}

impl DeploymentView {
    /// The resources of the deployment, in output order.
    pub open spec fn documents(self) -> Seq<DocumentView> {
        emitted_by(self.packages, self.config)
    }
}

impl View for Deployment {
    type V = DeploymentView;

    open spec fn view(&self) -> DeploymentView {
        DeploymentView { config: self.config@, packages: self.packages@ }
    }
}

impl DeepView for Deployment {
    type V = DeploymentView;

    open spec fn deep_view(&self) -> DeploymentView {
        self@
    }
}

impl Deployment {
    /// The resources of all packages as values, in output order.
    pub fn documents(&self) -> (documents: Vec<ResourceDocument>)
        ensures
            documents.deep_view() == self@.documents(),
    {
        let mut documents: Vec<ResourceDocument> = Vec::new();
        let mut i: usize = 0;
        while i < self.packages.len()
            invariant
                i <= self.packages.len(),
                documents.deep_view() == emitted_by(self.packages@.take(i as int), self.config@),
            decreases self.packages.len() - i,
        {
            let ghost before = documents.deep_view();
            let mut next = self.packages[i].documents(&self.config);
            let ghost added = next.deep_view();
            documents.append(&mut next);
            proof {
                let done = self.packages@.take(i as int + 1);
                assert(done.drop_last() =~= self.packages@.take(i as int));
                assert(done.last() == self.packages[i as int]);
                assert(documents.deep_view() =~= before + added);
            }
            i += 1;
        }
        proof {
            assert(self.packages@.take(self.packages.len() as int) =~= self.packages@);
        }
        documents
    }

    /// The resources of all packages as manifest text, in output order.
    pub fn resources(&self) -> (rendered: Vec<String>)
        ensures
            rendered.deep_view() == texts(self@.documents()),
    {
        render_all(&self.documents())
    }
}

} // verus!
