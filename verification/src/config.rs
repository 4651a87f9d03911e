//! The configurations of the stages: one base manifest, and for each stage
//! the overrides that are laid over a copy of it.

use vstd::prelude::*;
use crate::consts::BACKEND_NAME;
use crate::consts::BACKEND_PORT;
use crate::consts::FRONTEND_NAME;
use crate::consts::FRONTEND_PORT;
use crate::document::DocumentView;
use crate::model::AppView;
use crate::model::Apps;
use crate::model::AppsView;
use crate::model::Backend;
use crate::model::ClusterConfig;
use crate::model::ClusterConfigView;
use crate::model::Dashboard;
use crate::model::Frontend;
use crate::model::Image;
use crate::model::ImageRef;
use crate::model::ImageRefView;
use crate::model::ImageView;
use crate::model::Infrastructure;
use crate::model::InfrastructureView;
use crate::model::Ingress;
use crate::model::IngressView;
use crate::model::Manifest;
use crate::model::ManifestView;
use crate::model::Monitoring;
use crate::model::PullPolicy;
use crate::model::ServiceType;
use crate::model::Sources;
use crate::model::Stage;
use crate::naming::lemma_dotless_domain_is_its_name;
use crate::package::application_documents;
use crate::package::emitted_by;
use crate::package::ingress_release;
use crate::package::ingress_repository;
use crate::package::AnyPackage;
use crate::package::BackendPackage;
use crate::package::Deployment;
use crate::package::DeploymentView;
use crate::package::FrontendPackage;
use crate::package::IngressConfigPackage;
use crate::package::IngressSystemPackage;
use crate::package::Package;
use crate::routing::backend_mapping;
use crate::routing::enabled_services;
use crate::routing::frontend_mapping;
use crate::routing::lemma_single_domain;
use crate::routing::routing_documents;
use crate::routing::virtual_server;
use crate::routing::virtual_server_route;

verus! {

/// The registry that holds the applications' images.
pub const IMAGE_REGISTRY: &'static str = "cr.example.com";

pub const FRONTEND_IMAGE: &'static str = "frontend";

pub const BACKEND_IMAGE: &'static str = "backend";

/// The tag of an image where no stage names another.
pub const DEFAULT_TAG: &'static str = "latest";

/// An application as the base manifest has it: enabled, one replica of
/// the latest image, pulled always, reachable inside the cluster only.
pub open spec fn base_app(image: Seq<char>) -> AppView {
    AppView {
        enabled: true,
        replicas: 1,
        image: ImageView {
            reference: ImageRefView { registry: IMAGE_REGISTRY@, name: image, tag: DEFAULT_TAG@ },
            pull_policy: PullPolicy::Always,
        },
        service_type: ServiceType::ClusterIP,
    }
}

/// The base manifest: everything enabled, no domain yet, TLS on.
pub open spec fn base_manifest() -> ManifestView {
    ManifestView {
        apps: AppsView {
            frontend: base_app(FRONTEND_IMAGE@),
            backend: base_app(BACKEND_IMAGE@),
        },
        infrastructure: InfrastructureView {
            ingress: IngressView { enabled: true, domains: Seq::empty(), tls: true },
            monitoring: Monitoring {
                enabled: true,
                sources: Sources { tracing: true, logging: true, metrics: true },
                dashboard: Dashboard { enabled: true, service_type: ServiceType::ClusterIP },
            },
        },
    }
}

/// How many replicas of each application a stage runs.
pub open spec fn stage_replicas(stage: Stage) -> u16 {
    match stage {
        Stage::Prod => 3,
        Stage::Dev => 2,
        Stage::Test => 1,
        Stage::Local => 1,
        Stage::Minimal => 1,
    }
}

/// The image tag that a stage runs.
pub open spec fn stage_tag(stage: Stage) -> Seq<char> {
    match stage {
        Stage::Prod => "prod-latest"@,
        Stage::Dev => "dev-latest"@,
        Stage::Test => "test-latest"@,
        Stage::Local => "local-latest"@,
        Stage::Minimal => "minimal-latest"@,
    }
}

/// The domains under which a stage is reached.
pub open spec fn stage_domains(stage: Stage) -> Seq<Seq<char>> {
    match stage {
        Stage::Prod => seq!["prod.app.example.com"@, "app.example.com"@],
        Stage::Dev => seq!["dev.app.example.com"@],
        Stage::Test => seq!["test.app.example.com"@],
        Stage::Local => seq!["localhost"@],
        Stage::Minimal => seq!["localhost"@],
    }
}

/// Whether a stage switches TLS off; the others leave it as the base has it.
pub open spec fn stage_drops_tls(stage: Stage) -> bool {
    stage == Stage::Local || stage == Stage::Minimal
}

/// Whether a stage switches monitoring off; the others leave it as the
/// base has it.
pub open spec fn stage_drops_monitoring(stage: Stage) -> bool {
    stage == Stage::Minimal
}

/// An application with a stage's replica count and image tag.
pub open spec fn overlaid_app(stage: Stage, app: AppView) -> AppView {
    AppView {
        enabled: app.enabled,
        replicas: stage_replicas(stage),
        image: ImageView {
            reference: ImageRefView {
                registry: app.image.reference.registry,
                name: app.image.reference.name,
                tag: stage_tag(stage),
            },
            pull_policy: app.image.pull_policy,
        },
        service_type: app.service_type,
    }
}

/// The manifest of a stage: `base` with the stage's overrides laid over it.
pub open spec fn overlaid(stage: Stage, base: ManifestView) -> ManifestView {
    ManifestView {
        apps: AppsView {
            frontend: overlaid_app(stage, base.apps.frontend),
            backend: overlaid_app(stage, base.apps.backend),
        },
        infrastructure: InfrastructureView {
            ingress: IngressView {
                enabled: base.infrastructure.ingress.enabled,
                domains: stage_domains(stage),
                tls: base.infrastructure.ingress.tls && !stage_drops_tls(stage),
            },
            monitoring: Monitoring {
                enabled: base.infrastructure.monitoring.enabled && !stage_drops_monitoring(stage),
                sources: base.infrastructure.monitoring.sources,
                dashboard: base.infrastructure.monitoring.dashboard,
            },
        },
    }
}

/// The configuration of a stage over a given base.
pub open spec fn stage_config(stage: Stage, base: ManifestView) -> ClusterConfigView {
    ClusterConfigView { stage, manifest: overlaid(stage, base) }
}

/// The stages in the order in which they are generated.
pub open spec fn all_stages() -> Seq<Stage> {
    seq![Stage::Prod, Stage::Dev, Stage::Test, Stage::Local, Stage::Minimal]
}

/// The configurations of all stages over the base manifest.
pub open spec fn all_configs() -> Seq<ClusterConfigView> {
    all_stages().map_values(|stage: Stage| stage_config(stage, base_manifest()))
}

/// The packages that run against every configuration, in output order.
pub open spec fn package_list() -> Seq<AnyPackage> {
    seq![
        AnyPackage::Frontend(FrontendPackage {  }),
        AnyPackage::Backend(BackendPackage {  }),
        AnyPackage::IngressSystem(IngressSystemPackage {  }),
        AnyPackage::IngressConfig(IngressConfigPackage {  }),
    ]
}

/// One deployment for each stage, each with the full package list.
pub open spec fn all_deployments() -> Seq<DeploymentView> {
    all_configs().map_values(
        |config: ClusterConfigView| DeploymentView { config, packages: package_list() },
    )
}

fn default_image(name: &str) -> (image: Image)
    ensures
        image@ == base_app(name@).image,
{
    Image {
        reference: ImageRef {
            registry: String::from_str(IMAGE_REGISTRY),
            name: String::from_str(name),
            tag: String::from_str(DEFAULT_TAG),
        },
        pull_policy: PullPolicy::Always,
    }
}

/// Builds the base manifest.
pub fn default_manifest() -> (manifest: Manifest)
    ensures
        manifest@ == base_manifest(),
{
    let manifest = Manifest {
        apps: Apps {
            frontend: Frontend {
                enabled: true,
                replicas: 1,
                image: default_image(FRONTEND_IMAGE),
                service_type: ServiceType::ClusterIP,
            },
            backend: Backend {
                enabled: true,
                replicas: 1,
                image: default_image(BACKEND_IMAGE),
                service_type: ServiceType::ClusterIP,
            },
        },
        infrastructure: Infrastructure {
            ingress: Ingress { enabled: true, domains: Vec::new(), tls: true },
            monitoring: Monitoring {
                enabled: true,
                sources: Sources { tracing: true, logging: true, metrics: true },
                dashboard: Dashboard { enabled: true, service_type: ServiceType::ClusterIP },
            },
        },
    };
    assert(manifest.infrastructure.ingress.domains.deep_view() =~= Seq::<Seq<char>>::empty());
    manifest
}

fn replicas_of(stage: Stage) -> (replicas: u16)
    ensures
        replicas == stage_replicas(stage),
{
    match stage {
        Stage::Prod => 3,
        Stage::Dev => 2,
        Stage::Test => 1,
        Stage::Local => 1,
        Stage::Minimal => 1,
    }
}

fn tag_of(stage: Stage) -> (tag: String)
    ensures
        tag@ == stage_tag(stage),
{
    match stage {
        Stage::Prod => String::from_str("prod-latest"),
        Stage::Dev => String::from_str("dev-latest"),
        Stage::Test => String::from_str("test-latest"),
        Stage::Local => String::from_str("local-latest"),
        Stage::Minimal => String::from_str("minimal-latest"),
    }
}

fn domains_of(stage: Stage) -> (domains: Vec<String>)
    ensures
        domains.deep_view() == stage_domains(stage),
{
    let mut domains: Vec<String> = Vec::new();
    match stage {
        Stage::Prod => {
            domains.push(String::from_str("prod.app.example.com"));
            domains.push(String::from_str("app.example.com"));
        },
        Stage::Dev => {
            domains.push(String::from_str("dev.app.example.com"));
        },
        Stage::Test => {
            domains.push(String::from_str("test.app.example.com"));
        },
        Stage::Local => {
            domains.push(String::from_str("localhost"));
        },
        Stage::Minimal => {
            domains.push(String::from_str("localhost"));
        },
    }
    assert(domains.deep_view() =~= stage_domains(stage));
    domains
}

/// Lays the overrides of `stage` over a copy of `base`: the replica count
/// and image tag of both applications and the domains, and for some stages
/// TLS or monitoring switched off. The base itself is left as it is.
pub fn apply_overlay(stage: Stage, base: &Manifest) -> (config: ClusterConfig)
    ensures
        config@ == stage_config(stage, base@),
{
    let mut manifest = base.clone();
    manifest.apps.frontend.replicas = replicas_of(stage);
    manifest.apps.frontend.image.reference.tag = tag_of(stage);
    manifest.apps.backend.replicas = replicas_of(stage);
    manifest.apps.backend.image.reference.tag = tag_of(stage);
    manifest.infrastructure.ingress.domains = domains_of(stage);
    match stage {
        Stage::Local => {
            manifest.infrastructure.ingress.tls = false;
        },
        Stage::Minimal => {
            manifest.infrastructure.ingress.tls = false;
            manifest.infrastructure.monitoring.enabled = false;
        },
        _ => {},
    }
    ClusterConfig { stage, manifest }
}

/// The production cluster.
pub fn prod() -> (config: ClusterConfig)
    ensures
        config@ == stage_config(Stage::Prod, base_manifest()),
{
    apply_overlay(Stage::Prod, &default_manifest())
}

/// The development cluster.
pub fn dev() -> (config: ClusterConfig)
    ensures
        config@ == stage_config(Stage::Dev, base_manifest()),
{
    apply_overlay(Stage::Dev, &default_manifest())
}

/// The test cluster.
pub fn test() -> (config: ClusterConfig)
    ensures
        config@ == stage_config(Stage::Test, base_manifest()),
{
    apply_overlay(Stage::Test, &default_manifest())
}

/// The cluster on a developer's machine.
pub fn local() -> (config: ClusterConfig)
    ensures
        config@ == stage_config(Stage::Local, base_manifest()),
{
    apply_overlay(Stage::Local, &default_manifest())
}

/// The smallest cluster: as the local one, without monitoring.
pub fn minimal() -> (config: ClusterConfig)
    ensures
        config@ == stage_config(Stage::Minimal, base_manifest()),
{
    apply_overlay(Stage::Minimal, &default_manifest())
}

/// The configurations of all stages, in the order in which they are
/// generated.
pub fn clusters() -> (configs: Vec<ClusterConfig>)
    ensures
        configs.deep_view() == all_configs(),
{
    let mut configs: Vec<ClusterConfig> = Vec::new();
    configs.push(prod());
    configs.push(dev());
    configs.push(test());
    configs.push(local());
    configs.push(minimal());
    assert(configs.deep_view() =~= all_configs());
    configs
}

/// The packages that run against every configuration, in output order.
pub fn packages() -> (list: Vec<AnyPackage>)
    ensures
        list@ == package_list(),
{
    let mut list: Vec<AnyPackage> = Vec::new();
    list.push(AnyPackage::Frontend(FrontendPackage {  }));
    list.push(AnyPackage::Backend(BackendPackage {  }));
    list.push(AnyPackage::IngressSystem(IngressSystemPackage {  }));
    list.push(AnyPackage::IngressConfig(IngressConfigPackage {  }));
    assert(list@ =~= package_list());
    list
}

/// One deployment for each stage, in the order of the stages.
pub fn deployments() -> (list: Vec<Deployment>)
    ensures
        list.deep_view() == all_deployments(),
{
    let configs = clusters();
    let mut list: Vec<Deployment> = Vec::new();
    let mut i: usize = 0;
    while i < configs.len()
        invariant
            i <= configs.len(),
            list.len() == i,
            configs.deep_view() == all_configs(),
            forall|k: int|
                0 <= k < i ==> list[k]@ == (DeploymentView {
                    config: all_configs()[k],
                    packages: package_list(),
                }),
        decreases configs.len() - i,
    {
        assert(configs.deep_view()[i as int] == configs[i as int]@);
        list.push(Deployment { config: configs[i].clone(), packages: packages() });
        i += 1;
    }
    assert(list.deep_view() =~= all_deployments());
    list
}

/// With the full package list a deployment emits the frontend's two
/// resources, then the backend's, then the two of the ingress controller,
/// then the routing resources of the domains.
pub proof fn lemma_full_deployment_documents(config: ClusterConfigView)
    ensures
        emitted_by(package_list(), config) == application_documents(
            FRONTEND_NAME@,
            FRONTEND_PORT,
            config.manifest.apps.frontend,
        ) + application_documents(BACKEND_NAME@, BACKEND_PORT, config.manifest.apps.backend)
            + seq![ingress_repository(), ingress_release()] + routing_documents(
            config.manifest.infrastructure.ingress.domains,
            enabled_services(config.manifest),
        ),
{
    let four = package_list();
    let three = four.drop_last();
    let two = three.drop_last();
    let one = two.drop_last();
    assert(one.drop_last() =~= Seq::<AnyPackage>::empty());
    assert(emitted_by(one.drop_last(), config) =~= Seq::<DocumentView>::empty());
    assert(emitted_by(one, config) =~= four[0].emitted(config));
    assert(emitted_by(two, config) =~= emitted_by(one, config) + four[1].emitted(config));
    assert(emitted_by(three, config) =~= emitted_by(two, config) + four[2].emitted(config));
    assert(emitted_by(four, config) =~= emitted_by(three, config) + four[3].emitted(config));
}

/// The minimal stage emits nine resources: workload and service of the
/// frontend and of the backend, the two of the ingress controller, the
/// virtual server of `localhost` with rules for frontend and backend, and
/// the routes of these two. Nothing leads to the dashboard.
pub proof fn lemma_minimal_stage_documents()
    ensures
        ({
            let config = stage_config(Stage::Minimal, base_manifest());
            let documents = emitted_by(package_list(), config);
            let services = seq![frontend_mapping(), backend_mapping()];
            &&& documents.len() == 9
            &&& documents[0] is Workload
            &&& documents[1] is Exposure
            &&& documents[2] is Workload
            &&& documents[3] is Exposure
            &&& documents[4] == ingress_repository()
            &&& documents[5] == ingress_release()
            &&& documents[6] == virtual_server("localhost"@, services)
            &&& documents[6]->VirtualServer_name == "localhost"@
            &&& documents[6]->VirtualServer_routes.len() == 2
            &&& documents[7] == virtual_server_route("localhost"@, frontend_mapping())
            &&& documents[8] == virtual_server_route("localhost"@, backend_mapping())
        }),
{
    let config = stage_config(Stage::Minimal, base_manifest());
    let services = seq![frontend_mapping(), backend_mapping()];
    lemma_full_deployment_documents(config);
    assert(enabled_services(config.manifest) =~= services);
    lemma_single_domain("localhost"@, services);
    assert(config.manifest.infrastructure.ingress.domains =~= seq!["localhost"@]);
    reveal_strlit("localhost");
    let host = "localhost"@;
    assert(host =~= seq!['l', 'o', 'c', 'a', 'l', 'h', 'o', 's', 't']);
    assert(!host.contains('.'));
    lemma_dotless_domain_is_its_name(host);
}

/// Laying a stage's overrides over two base manifests that were built
/// apart, and so hold the same values, gives equal configurations.
pub proof fn lemma_overlay_of_equal_bases(stage: Stage, first: Manifest, second: Manifest)
    requires
        first@ == base_manifest(),
        second@ == base_manifest(),
    ensures
        stage_config(stage, first@) == stage_config(stage, second@),
        stage_config(stage, first@).stage == stage,
{
}

/// Laying a stage's overrides over a manifest a second time changes
/// nothing.
pub proof fn lemma_overlay_idempotent(stage: Stage, base: ManifestView)
    ensures
        overlaid(stage, overlaid(stage, base)) == overlaid(stage, base),
{
}

} // verus!
