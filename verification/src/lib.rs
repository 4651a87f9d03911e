//! Generates the Kubernetes manifests of an application for each of its
//! deployment stages.
//!
//! A stage's [`ClusterConfig`] is a copy of one base manifest with the
//! stage's overrides laid over it ([`config`]). A [`Deployment`] runs a list
//! of packages against one configuration; each [`Package`] emits resources
//! ([`document`]), and the ingress package among them routes every domain
//! of the configuration to the enabled services ([`routing`]) under a name
//! derived from the domain ([`naming`]). [`build`] checks every stage
//! ([`validation`]) and gives the files to write ([`output`]).

pub mod config;
pub mod consts;
pub mod document;
pub mod model;
pub mod naming;
pub mod output;
pub mod package;
pub mod routing;
pub mod text;
pub mod validation;

pub use crate::config::deployments;
pub use crate::document::ResourceDocument;
pub use crate::model::Apps;
pub use crate::model::Backend;
pub use crate::model::ClusterConfig;
pub use crate::model::Dashboard;
pub use crate::model::Frontend;
pub use crate::model::Image;
pub use crate::model::ImageRef;
pub use crate::model::Infrastructure;
pub use crate::model::Ingress;
pub use crate::model::Manifest;
pub use crate::model::Monitoring;
pub use crate::model::PullPolicy;
pub use crate::model::ServiceType;
pub use crate::model::Sources;
pub use crate::model::Stage;
pub use crate::output::build;
pub use crate::package::AnyPackage;
pub use crate::package::BackendPackage;
pub use crate::package::Deployment;
pub use crate::package::FrontendPackage;
pub use crate::package::IngressConfigPackage;
pub use crate::package::IngressSystemPackage;
pub use crate::package::Package;
pub use crate::routing::ServiceMapping;
pub use crate::validation::ConfigError;
