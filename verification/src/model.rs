//! The configuration of one cluster: which applications run, from which
//! images, and how they are reached.

use vstd::prelude::*;

verus! {

/// When the container runtime pulls an image.
#[derive(Clone, Copy, Debug, PartialEq, Eq, Structural)]
pub enum PullPolicy {
    Always,
    IfNotPresent,
    Never,
}

impl PullPolicy {
    /// The policy as a manifest writes it.
    pub open spec fn text(self) -> Seq<char> {
        match self {
            PullPolicy::Always => "Always"@,
            PullPolicy::IfNotPresent => "IfNotPresent"@,
            PullPolicy::Never => "Never"@,
        }
    }

    pub fn to_string(&self) -> (text: String)
        ensures
            text@ == self.text(),
    {
        match self {
            PullPolicy::Always => String::from_str("Always"),
            PullPolicy::IfNotPresent => String::from_str("IfNotPresent"),
            PullPolicy::Never => String::from_str("Never"),
        }
    }
}

/// How a service is exposed to the network.
#[derive(Clone, Copy, Debug, PartialEq, Eq, Structural)]
pub enum ServiceType {
    ClusterIP,
    NodePort,
    LoadBalancer,
}

impl ServiceType {
    /// The exposure type as a manifest writes it.
    pub open spec fn text(self) -> Seq<char> {
        match self {
            ServiceType::ClusterIP => "ClusterIP"@,
            ServiceType::NodePort => "NodePort"@,
            ServiceType::LoadBalancer => "LoadBalancer"@,
        }
    }

    pub fn to_string(&self) -> (text: String)
        ensures
            text@ == self.text(),
    {
        match self {
            ServiceType::ClusterIP => String::from_str("ClusterIP"),
            ServiceType::NodePort => String::from_str("NodePort"),
            ServiceType::LoadBalancer => String::from_str("LoadBalancer"),
        }
    }
}

/// The deployment stages; each has a cluster of its own.
#[derive(Clone, Copy, Debug, PartialEq, Eq, Structural)]
pub enum Stage {
    Prod,
    Dev,
    Test,
    Local,
    Minimal,
}

impl Stage {
    /// The lower-case identifier of the stage, which also names its output
    /// directory.
    pub open spec fn identifier(self) -> Seq<char> {
        match self {
            Stage::Prod => "prod"@,
            Stage::Dev => "dev"@,
            Stage::Test => "test"@,
            Stage::Local => "local"@,
            Stage::Minimal => "minimal"@,
        }
    }

    pub fn to_string(&self) -> (text: String)
        ensures
            text@ == self.identifier(),
    {
        match self {
            Stage::Prod => String::from_str("prod"),
            Stage::Dev => String::from_str("dev"),
            Stage::Test => String::from_str("test"),
            Stage::Local => String::from_str("local"),
            Stage::Minimal => String::from_str("minimal"),
        }
    }
}

/// Stages and identifiers correspond one to one: two stages with the same
/// identifier are the same stage.
pub proof fn lemma_stage_identifier_injective(a: Stage, b: Stage)
    requires
        a.identifier() == b.identifier(),
    ensures
        a == b,
{
    reveal_strlit("prod");
    reveal_strlit("dev");
    reveal_strlit("test");
    reveal_strlit("local");
    reveal_strlit("minimal");
    assert("prod"@.len() == 4 && "dev"@.len() == 3 && "test"@.len() == 4);
    assert("local"@.len() == 5 && "minimal"@.len() == 7);
    assert("prod"@[0] == 'p' && "test"@[0] == 't');
}

/// Where an image is pulled from.
#[derive(Debug, PartialEq, Eq)]
pub struct ImageRef {
    pub registry: String,
    pub name: String,
    pub tag: String,
}

pub struct ImageRefView {
    pub registry: Seq<char>,
    pub name: Seq<char>,
    pub tag: Seq<char>,
}

impl ImageRefView {
    /// The pull string `registry/name:tag`.
    pub open spec fn text(self) -> Seq<char> {
        self.registry + "/"@ + self.name + ":"@ + self.tag
    }
}

impl View for ImageRef {
    type V = ImageRefView;

    open spec fn view(&self) -> ImageRefView {
        ImageRefView { registry: self.registry@, name: self.name@, tag: self.tag@ }
    }
}

impl Clone for ImageRef {
    fn clone(&self) -> (copy: Self)
        ensures
            copy@ == self@,
    {
        ImageRef {
            registry: self.registry.clone(),
            name: self.name.clone(),
            tag: self.tag.clone(),
        }
    }
}

impl ImageRef {
    /// The pull string `registry/name:tag`.
    pub fn to_string(&self) -> (text: String)
        ensures
            text@ == self@.text(),
    {
        let mut text = self.registry.clone();
        text.append("/");
        text.append(self.name.as_str());
        text.append(":");
        text.append(self.tag.as_str());
        text
    }
}

/// An image and when to pull it.
#[derive(Debug, PartialEq, Eq)]
pub struct Image {
    pub reference: ImageRef,
    pub pull_policy: PullPolicy,
}

pub struct ImageView {
    pub reference: ImageRefView,
    pub pull_policy: PullPolicy,
}

impl View for Image {
    type V = ImageView;

    open spec fn view(&self) -> ImageView {
        ImageView { reference: self.reference@, pull_policy: self.pull_policy }
    }
}

impl Clone for Image {
    fn clone(&self) -> (copy: Self)
        ensures
            copy@ == self@,
    {
        Image { reference: self.reference.clone(), pull_policy: self.pull_policy }
    }
}

/// What the configuration says of one application, frontend or backend.
pub struct AppView {
    pub enabled: bool,
    pub replicas: u16,
    pub image: ImageView,
    pub service_type: ServiceType,
}

/// The frontend application.
#[derive(Debug, PartialEq, Eq)]
pub struct Frontend {
    pub enabled: bool,
    pub replicas: u16,
    pub image: Image,
    pub service_type: ServiceType,
}

impl View for Frontend {
    type V = AppView;

    open spec fn view(&self) -> AppView {
        AppView {
            enabled: self.enabled,
            replicas: self.replicas,
            image: self.image@,
            service_type: self.service_type,
        }
    }
}

impl Clone for Frontend {
    fn clone(&self) -> (copy: Self)
        ensures
            copy@ == self@,
    {
        Frontend {
            enabled: self.enabled,
            replicas: self.replicas,
            image: self.image.clone(),
            service_type: self.service_type,
        }
    }
}

/// The backend application.
#[derive(Debug, PartialEq, Eq)]
pub struct Backend {
    pub enabled: bool,
    pub replicas: u16,
    pub image: Image,
    pub service_type: ServiceType,
}

impl View for Backend {
    type V = AppView;

    open spec fn view(&self) -> AppView {
        AppView {
            enabled: self.enabled,
            replicas: self.replicas,
            image: self.image@,
            service_type: self.service_type,
        }
    }
}

impl Clone for Backend {
    fn clone(&self) -> (copy: Self)
        ensures
            copy@ == self@,
    {
        Backend {
            enabled: self.enabled,
            replicas: self.replicas,
            image: self.image.clone(),
            service_type: self.service_type,
        }
    }
}

#[derive(Debug, PartialEq, Eq)]
pub struct Apps {
    pub frontend: Frontend,
    pub backend: Backend,
}

pub struct AppsView {
    pub frontend: AppView,
    pub backend: AppView,
}

impl View for Apps {
    type V = AppsView;

    open spec fn view(&self) -> AppsView {
        AppsView { frontend: self.frontend@, backend: self.backend@ }
    }
}

impl Clone for Apps {
    fn clone(&self) -> (copy: Self)
        ensures
            copy@ == self@,
    {
        Apps { frontend: self.frontend.clone(), backend: self.backend.clone() }
    }
}

/// The domains under which the cluster is reached.
#[derive(Debug, PartialEq, Eq)]
pub struct Ingress {
    pub enabled: bool,
    pub domains: Vec<String>,
    pub tls: bool,
}

pub struct IngressView {
    pub enabled: bool,
    pub domains: Seq<Seq<char>>,
    pub tls: bool,
}

impl View for Ingress {
    type V = IngressView;

    open spec fn view(&self) -> IngressView {
        IngressView { enabled: self.enabled, domains: self.domains.deep_view(), tls: self.tls }
    }
}

impl Clone for Ingress {
    fn clone(&self) -> (copy: Self)
        ensures
            copy@ == self@,
    {
        let domains = self.domains.clone();
        assert(domains.deep_view() =~= self.domains.deep_view());
        Ingress { enabled: self.enabled, domains, tls: self.tls }
    }
}

/// Which telemetry is collected.
#[derive(Clone, Copy, Debug, PartialEq, Eq, Structural)]
pub struct Sources {
    pub tracing: bool,
    pub logging: bool,
    pub metrics: bool,
}

/// The monitoring dashboard.
#[derive(Clone, Copy, Debug, PartialEq, Eq, Structural)]
pub struct Dashboard {
    pub enabled: bool,
    pub service_type: ServiceType,
}

#[derive(Clone, Copy, Debug, PartialEq, Eq, Structural)]
pub struct Monitoring {
    pub enabled: bool,
    pub sources: Sources,
    pub dashboard: Dashboard,
}

#[derive(Debug, PartialEq, Eq)]
pub struct Infrastructure {
    pub ingress: Ingress,
    pub monitoring: Monitoring,
}

pub struct InfrastructureView {
    pub ingress: IngressView,
    pub monitoring: Monitoring,
}

impl View for Infrastructure {
    type V = InfrastructureView;

    open spec fn view(&self) -> InfrastructureView {
        InfrastructureView { ingress: self.ingress@, monitoring: self.monitoring }
    }
}

impl Clone for Infrastructure {
    fn clone(&self) -> (copy: Self)
        ensures
            copy@ == self@,
    {
        Infrastructure { ingress: self.ingress.clone(), monitoring: self.monitoring }
    }
}

/// Everything that is configured for one stage.
#[derive(Debug, PartialEq, Eq)]
pub struct Manifest {
    pub apps: Apps,
    pub infrastructure: Infrastructure,
}

pub struct ManifestView {
    pub apps: AppsView,
    pub infrastructure: InfrastructureView,
}

impl View for Manifest {
    type V = ManifestView;

    open spec fn view(&self) -> ManifestView {
        ManifestView { apps: self.apps@, infrastructure: self.infrastructure@ }
    }
}

impl Clone for Manifest {
    fn clone(&self) -> (copy: Self)
        ensures
            copy@ == self@,
    {
        Manifest { apps: self.apps.clone(), infrastructure: self.infrastructure.clone() }
    }
}

/// A stage together with its manifest: the unit for which resources are
/// generated.
#[derive(Debug, PartialEq, Eq)]
pub struct ClusterConfig {
    pub stage: Stage,
    pub manifest: Manifest,
}

pub struct ClusterConfigView {
    pub stage: Stage,
    pub manifest: ManifestView,
}

impl View for ClusterConfig {
    type V = ClusterConfigView;

    open spec fn view(&self) -> ClusterConfigView {
        ClusterConfigView { stage: self.stage, manifest: self.manifest@ }
    }
}

impl DeepView for ClusterConfig {
    type V = ClusterConfigView;

    open spec fn deep_view(&self) -> ClusterConfigView {
        self@
    }
}

impl Clone for ClusterConfig {
    fn clone(&self) -> (copy: Self)
        ensures
            copy@ == self@,
    {
        ClusterConfig { stage: self.stage, manifest: self.manifest.clone() }
    }
}

} // verus!
