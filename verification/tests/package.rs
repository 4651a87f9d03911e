use gitops_manifests::config::dev;
use gitops_manifests::config::minimal;
use gitops_manifests::config::packages;
use gitops_manifests::config::prod;
use gitops_manifests::document::render_all;
use gitops_manifests::document::ResourceDocument;
use gitops_manifests::model::PullPolicy;
use gitops_manifests::model::ServiceType;
use gitops_manifests::package::AnyPackage;
use gitops_manifests::package::BackendPackage;
use gitops_manifests::package::Deployment;
use gitops_manifests::package::FrontendPackage;
use gitops_manifests::package::IngressConfigPackage;
use gitops_manifests::package::IngressSystemPackage;
use gitops_manifests::package::Package;

#[test]
fn frontend_package_emits_workload_and_service() {
    let documents = (FrontendPackage {}).documents(&prod());
    assert_eq!(
        documents,
        vec![
            ResourceDocument::Workload {
                namespace: "default".to_string(),
                name: "frontend".to_string(),
                replicas: 3,
                image: "cr.example.com/frontend:prod-latest".to_string(),
                pull_policy: PullPolicy::Always,
                container_port: 80,
            },
            ResourceDocument::Exposure {
                namespace: "default".to_string(),
                name: "frontend".to_string(),
                service_type: ServiceType::ClusterIP,
                port: 80,
                target_port: 80,
            },
        ]
    );
}

#[test]
fn backend_package_emits_workload_and_service() {
    let mut config = dev();
    config.manifest.apps.backend.image.pull_policy = PullPolicy::IfNotPresent;
    config.manifest.apps.backend.service_type = ServiceType::NodePort;
    config.manifest.apps.backend.replicas = 7;
    let documents = (BackendPackage {}).documents(&config);
    assert_eq!(
        documents,
        vec![
            ResourceDocument::Workload {
                namespace: "default".to_string(),
                name: "backend".to_string(),
                replicas: 7,
                image: "cr.example.com/backend:dev-latest".to_string(),
                pull_policy: PullPolicy::IfNotPresent,
                container_port: 80,
            },
            ResourceDocument::Exposure {
                namespace: "default".to_string(),
                name: "backend".to_string(),
                service_type: ServiceType::NodePort,
                port: 80,
                target_port: 80,
            },
        ]
    );
}

#[test]
fn each_application_is_exposed_by_its_own_service_type() {
    let mut config = dev();
    config.manifest.apps.frontend.service_type = ServiceType::LoadBalancer;
    config.manifest.apps.backend.service_type = ServiceType::NodePort;
    let frontend = (FrontendPackage {}).documents(&config);
    let backend = (BackendPackage {}).documents(&config);
    assert!(matches!(
        &frontend[1],
        ResourceDocument::Exposure { service_type: ServiceType::LoadBalancer, .. }
    ));
    assert!(matches!(
        &backend[1],
        ResourceDocument::Exposure { service_type: ServiceType::NodePort, .. }
    ));
}

#[test]
fn ingress_system_package_emits_the_same_for_every_configuration() {
    let documents = (IngressSystemPackage {}).documents(&prod());
    assert_eq!(documents, IngressSystemPackage {}.documents(&minimal()));
    assert_eq!(
        documents,
        vec![
            ResourceDocument::HelmRepository {
                name: "ingress".to_string(),
                namespace: "ingress-system".to_string(),
                interval: "1m".to_string(),
                url: "https://helm.nginx.com/stable".to_string(),
            },
            ResourceDocument::HelmRelease {
                name: "ingress".to_string(),
                namespace: "ingress-system".to_string(),
                interval: "1m".to_string(),
                repository: "ingress".to_string(),
                chart: "nginx-ingress".to_string(),
                version: "0.15.2".to_string(),
                controller: "ingress".to_string(),
                cert_manager: true,
                latency_metrics: true,
                prometheus: false,
            },
        ]
    );
}

#[test]
fn resources_are_the_documents_as_text() {
    let config = prod();
    for package in packages().iter() {
        assert_eq!(package.resources(&config), render_all(&package.documents(&config)));
    }
    assert_eq!(
        FrontendPackage {}.resources(&config),
        render_all(&FrontendPackage {}.documents(&config))
    );
}

#[test]
fn any_package_stands_for_the_package_it_holds() {
    let config = prod();
    assert_eq!(
        AnyPackage::Frontend(FrontendPackage {}).documents(&config),
        FrontendPackage {}.documents(&config)
    );
    assert_eq!(
        AnyPackage::Backend(BackendPackage {}).documents(&config),
        BackendPackage {}.documents(&config)
    );
    assert_eq!(
        AnyPackage::IngressSystem(IngressSystemPackage {}).documents(&config),
        IngressSystemPackage {}.documents(&config)
    );
    assert_eq!(
        AnyPackage::IngressConfig(IngressConfigPackage {}).documents(&config),
        IngressConfigPackage {}.documents(&config)
    );
}

#[test]
fn deployment_lists_the_packages_in_their_order() {
    let config = prod();
    let deployment = Deployment { config: config.clone(), packages: packages() };
    let mut expected = (FrontendPackage {}).documents(&config);
    expected.extend(BackendPackage {}.documents(&config));
    expected.extend(IngressSystemPackage {}.documents(&config));
    expected.extend(IngressConfigPackage {}.documents(&config));
    assert_eq!(deployment.documents(), expected);
    assert_eq!(deployment.resources(), render_all(&expected));
}

#[test]
fn deployment_follows_another_order_of_packages() {
    let config = minimal();
    let deployment = Deployment {
        config: config.clone(),
        packages: vec![
            AnyPackage::IngressConfig(IngressConfigPackage {}),
            AnyPackage::Frontend(FrontendPackage {}),
            AnyPackage::Frontend(FrontendPackage {}),
        ],
    };
    let mut expected = (IngressConfigPackage {}).documents(&config);
    expected.extend(FrontendPackage {}.documents(&config));
    expected.extend(FrontendPackage {}.documents(&config));
    assert_eq!(deployment.documents(), expected);
    assert_eq!(deployment.documents().len(), 7);
}

#[test]
fn deployment_without_packages_emits_nothing() {
    let deployment = Deployment { config: prod(), packages: Vec::new() };
    assert_eq!(deployment.documents(), Vec::new());
    assert_eq!(deployment.resources(), Vec::<String>::new());
}
