use gitops_manifests::config::apply_overlay;
use gitops_manifests::config::clusters;
use gitops_manifests::config::default_manifest;
use gitops_manifests::config::deployments;
use gitops_manifests::config::dev;
use gitops_manifests::config::local;
use gitops_manifests::config::minimal;
use gitops_manifests::config::packages;
use gitops_manifests::config::prod;
use gitops_manifests::model::ClusterConfig;
use gitops_manifests::model::PullPolicy;
use gitops_manifests::model::ServiceType;
use gitops_manifests::model::Stage;
use gitops_manifests::package::AnyPackage;
use gitops_manifests::package::BackendPackage;
use gitops_manifests::package::FrontendPackage;
use gitops_manifests::package::IngressConfigPackage;
use gitops_manifests::package::IngressSystemPackage;

fn check_overrides(config: &ClusterConfig, stage: Stage, replicas: u16, tag: &str, domains: &[&str]) {
    assert_eq!(config.stage, stage);
    let apps = &config.manifest.apps;
    assert_eq!(apps.frontend.replicas, replicas);
    assert_eq!(apps.backend.replicas, replicas);
    assert_eq!(apps.frontend.image.reference.tag, tag);
    assert_eq!(apps.backend.image.reference.tag, tag);
    assert_eq!(apps.frontend.image.reference.registry, "cr.example.com");
    assert_eq!(apps.frontend.image.reference.name, "frontend");
    assert_eq!(apps.backend.image.reference.registry, "cr.example.com");
    assert_eq!(apps.backend.image.reference.name, "backend");
    assert!(apps.frontend.enabled);
    assert!(apps.backend.enabled);
    assert_eq!(config.manifest.infrastructure.ingress.domains, domains);
    assert!(config.manifest.infrastructure.ingress.enabled);
    assert!(config.manifest.infrastructure.monitoring.dashboard.enabled);
}

#[test]
fn default_manifest_enables_everything() {
    let manifest = default_manifest();
    for (enabled, replicas, image, service_type, name) in [
        (
            manifest.apps.frontend.enabled,
            manifest.apps.frontend.replicas,
            &manifest.apps.frontend.image,
            manifest.apps.frontend.service_type,
            "frontend",
        ),
        (
            manifest.apps.backend.enabled,
            manifest.apps.backend.replicas,
            &manifest.apps.backend.image,
            manifest.apps.backend.service_type,
            "backend",
        ),
    ] {
        assert!(enabled);
        assert_eq!(replicas, 1);
        assert_eq!(image.reference.registry, "cr.example.com");
        assert_eq!(image.reference.name, name);
        assert_eq!(image.reference.tag, "latest");
        assert_eq!(image.pull_policy, PullPolicy::Always);
        assert_eq!(service_type, ServiceType::ClusterIP);
    }
    let ingress = &manifest.infrastructure.ingress;
    assert!(ingress.enabled);
    assert!(ingress.domains.is_empty());
    assert!(ingress.tls);
    let monitoring = manifest.infrastructure.monitoring;
    assert!(monitoring.enabled);
    assert!(monitoring.sources.tracing && monitoring.sources.logging && monitoring.sources.metrics);
    assert!(monitoring.dashboard.enabled);
    assert_eq!(monitoring.dashboard.service_type, ServiceType::ClusterIP);
}

#[test]
fn prod_runs_three_replicas_under_two_domains() {
    let config = prod();
    check_overrides(
        &config,
        Stage::Prod,
        3,
        "prod-latest",
        &["prod.app.example.com", "app.example.com"],
    );
    assert!(config.manifest.infrastructure.ingress.tls);
    assert!(config.manifest.infrastructure.monitoring.enabled);
}

#[test]
fn dev_runs_two_replicas() {
    let config = dev();
    check_overrides(&config, Stage::Dev, 2, "dev-latest", &["dev.app.example.com"]);
    assert!(config.manifest.infrastructure.ingress.tls);
    assert!(config.manifest.infrastructure.monitoring.enabled);
}

#[test]
fn test_runs_one_replica() {
    let config = gitops_manifests::config::test();
    check_overrides(&config, Stage::Test, 1, "test-latest", &["test.app.example.com"]);
    assert!(config.manifest.infrastructure.ingress.tls);
    assert!(config.manifest.infrastructure.monitoring.enabled);
}

#[test]
fn local_switches_tls_off() {
    let config = local();
    check_overrides(&config, Stage::Local, 1, "local-latest", &["localhost"]);
    assert!(!config.manifest.infrastructure.ingress.tls);
    assert!(config.manifest.infrastructure.monitoring.enabled);
}

#[test]
fn minimal_switches_tls_and_monitoring_off() {
    let config = minimal();
    check_overrides(&config, Stage::Minimal, 1, "minimal-latest", &["localhost"]);
    assert!(!config.manifest.infrastructure.ingress.tls);
    assert!(!config.manifest.infrastructure.monitoring.enabled);
}

#[test]
fn overlay_of_two_bases_built_apart_is_equal() {
    let first = default_manifest();
    let second = default_manifest();
    for stage in [Stage::Prod, Stage::Dev, Stage::Test, Stage::Local, Stage::Minimal] {
        assert_eq!(apply_overlay(stage, &first), apply_overlay(stage, &second));
    }
    assert_eq!(apply_overlay(Stage::Prod, &first), prod());
}

#[test]
fn overlay_leaves_the_base_as_it_is() {
    let base = default_manifest();
    let _ = apply_overlay(Stage::Minimal, &base);
    assert_eq!(base, default_manifest());
}

#[test]
fn overlay_applied_again_changes_nothing() {
    for stage in [Stage::Prod, Stage::Dev, Stage::Test, Stage::Local, Stage::Minimal] {
        let once = apply_overlay(stage, &default_manifest());
        let twice = apply_overlay(stage, &once.manifest);
        assert_eq!(once, twice);
    }
}

#[test]
fn overlay_keeps_what_the_base_switched_off() {
    let mut base = default_manifest();
    base.infrastructure.ingress.tls = false;
    base.infrastructure.monitoring.enabled = false;
    base.apps.frontend.enabled = false;
    base.apps.backend.image.pull_policy = PullPolicy::Never;
    let config = apply_overlay(Stage::Prod, &base);
    assert!(!config.manifest.infrastructure.ingress.tls);
    assert!(!config.manifest.infrastructure.monitoring.enabled);
    assert!(!config.manifest.apps.frontend.enabled);
    assert_eq!(config.manifest.apps.backend.image.pull_policy, PullPolicy::Never);
    assert_eq!(config.manifest.apps.backend.replicas, 3);
}

#[test]
fn clusters_lists_the_stages_in_order() {
    let configs = clusters();
    assert_eq!(configs, vec![prod(), dev(), gitops_manifests::config::test(), local(), minimal()]);
    let stages: Vec<Stage> = configs.iter().map(|config| config.stage).collect();
    assert_eq!(
        stages,
        vec![Stage::Prod, Stage::Dev, Stage::Test, Stage::Local, Stage::Minimal]
    );
}

#[test]
fn packages_lists_the_four_packages_in_order() {
    assert_eq!(
        packages(),
        vec![
            AnyPackage::Frontend(FrontendPackage {}),
            AnyPackage::Backend(BackendPackage {}),
            AnyPackage::IngressSystem(IngressSystemPackage {}),
            AnyPackage::IngressConfig(IngressConfigPackage {}),
        ]
    );
}

#[test]
fn deployments_pair_every_stage_with_all_packages() {
    let all = deployments();
    assert_eq!(all.len(), 5);
    for (deployment, config) in all.iter().zip(clusters().iter()) {
        assert_eq!(&deployment.config, config);
        assert_eq!(deployment.packages, packages());
    }
}
