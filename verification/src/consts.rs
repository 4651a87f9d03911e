//! The fixed names, namespaces, ports and paths of the generated resources.

use vstd::prelude::*;

verus! {

/// How often the cluster reconciles the ingress controller's release.
pub const RECONCILIATION_INTERVAL: &'static str = "1m";

/// The namespace of the applications.
pub const APPS_NAMESPACE: &'static str = "default";

pub const FRONTEND_NAME: &'static str = "frontend";

pub const FRONTEND_PATH: &'static str = "/";

pub const FRONTEND_PORT: u16 = 80;

pub const BACKEND_NAME: &'static str = "backend";

pub const BACKEND_PATH: &'static str = "/api";

pub const BACKEND_PORT: u16 = 80;

/// The namespace of the routing resources.
pub const INGRESS_NAMESPACE: &'static str = "ingress";

/// The namespace into which the ingress controller is installed.
pub const INGRESS_SYSTEM_NAMESPACE: &'static str = "ingress-system";

pub const INGRESS_NAME: &'static str = "ingress";

/// Where the ingress controller's chart is published.
pub const INGRESS_CHART_REPOSITORY: &'static str = "https://helm.nginx.com/stable";

pub const INGRESS_CHART: &'static str = "nginx-ingress";

pub const INGRESS_CHART_VERSION: &'static str = "0.15.2";

pub const MONITORING_NAMESPACE: &'static str = "monitoring";

pub const DASHBOARD_NAME: &'static str = "dashboard";

pub const DASHBOARD_PATH: &'static str = "/monitoring";

pub const DASHBOARD_PORT: u16 = 80;

} // verus!
