use gitops_manifests::config::deployments;
use gitops_manifests::config::minimal;
use gitops_manifests::config::packages;
use gitops_manifests::config::prod;
use gitops_manifests::document::ResourceDocument;
use gitops_manifests::model::Stage;
use gitops_manifests::output::build;
use gitops_manifests::output::path_of;
use gitops_manifests::output::stage_file;
use gitops_manifests::output::StageFile;
use gitops_manifests::package::Deployment;
use gitops_manifests::validation::ConfigError;

fn file_of(documents: &[&str]) -> String {
    let mut text = documents.join("\n---\n");
    text.push('\n');
    text
}

fn built() -> Vec<StageFile> {
    build().expect("every stage is valid")
}

fn expected_prod() -> String {
    file_of(&[
        "apiVersion: apps/v1\nkind: Deployment\nmetadata:\n  namespace: default\n  name: frontend\nspec:\n  replicas: 3\n  selector:\n    matchLabels:\n      app: frontend\n  template:\n    metadata:\n      labels:\n        app: frontend\n    spec:\n      containers:\n      - name: frontend\n        image: cr.example.com/frontend:prod-latest\n        imagePullPolicy: Always\n        ports:\n        - containerPort: 80",
        "apiVersion: v1\nkind: Service\nmetadata:\n  namespace: default\n  name: frontend\nspec:\n  type: ClusterIP\n  selector:\n    app: frontend\n  ports:\n  - port: 80\n    targetPort: 80",
        "apiVersion: apps/v1\nkind: Deployment\nmetadata:\n  namespace: default\n  name: backend\nspec:\n  replicas: 3\n  selector:\n    matchLabels:\n      app: backend\n  template:\n    metadata:\n      labels:\n        app: backend\n    spec:\n      containers:\n      - name: backend\n        image: cr.example.com/backend:prod-latest\n        imagePullPolicy: Always\n        ports:\n        - containerPort: 80",
        "apiVersion: v1\nkind: Service\nmetadata:\n  namespace: default\n  name: backend\nspec:\n  type: ClusterIP\n  selector:\n    app: backend\n  ports:\n  - port: 80\n    targetPort: 80",
        "apiVersion: source.toolkit.fluxcd.io/v1beta1\nkind: HelmRepository\nmetadata:\n  name: ingress\n  namespace: ingress-system\nspec:\n  interval: 1m\n  url: \"https://helm.nginx.com/stable\"",
        "apiVersion: helm.toolkit.fluxcd.io/v2beta1\nkind: HelmRelease\nmetadata:\n  name: ingress\n  namespace: ingress-system\nspec:\n  chart:\n    spec:\n      sourceRef:\n        kind: HelmRepository\n        name: ingress\n      chart: nginx-ingress\n      version: 0.15.2\n  interval: 1m\n  values:\n    controller:\n      enableCertManager: true\n      name: ingress\n      enableLatencyMetrics: true\n      config:\n        name: ingress\n      service:\n        name: ingress\n      serviceAccount:\n        name: ingress\n      reportIngressStatus:\n        leaderElectionLockName: ingress-leader-election\n    prometheus:\n      create: false",
        "apiVersion: k8s.nginx.org/v1\nkind: VirtualServer\nmetadata:\n  name: com-example-app-prod\n  namespace: ingress\nspec:\n  host: prod.app.example.com\n  tls:\n    secret: com-example-app-prod-tls\n  routes:\n  - path: /\n    route: default/com-example-app-prod-frontend\n  - path: /api\n    route: default/com-example-app-prod-backend\n  - path: /monitoring\n    route: monitoring/com-example-app-prod-dashboard",
        "apiVersion: k8s.nginx.org/v1\nkind: VirtualServerRoute\nmetadata:\n  name: com-example-app-prod-frontend\n  namespace: default\nspec:\n  host: prod.app.example.com\n  upstreams:\n  - name: frontend\n    service: frontend\n    port: 80\n  subroutes:\n  - path: /\n    action:\n        pass: frontend",
        "apiVersion: k8s.nginx.org/v1\nkind: VirtualServerRoute\nmetadata:\n  name: com-example-app-prod-backend\n  namespace: default\nspec:\n  host: prod.app.example.com\n  upstreams:\n  - name: backend\n    service: backend\n    port: 80\n  subroutes:\n  - path: /api\n    action:\n        pass: backend",
        "apiVersion: k8s.nginx.org/v1\nkind: VirtualServerRoute\nmetadata:\n  name: com-example-app-prod-dashboard\n  namespace: monitoring\nspec:\n  host: prod.app.example.com\n  upstreams:\n  - name: dashboard\n    service: dashboard\n    port: 80\n  subroutes:\n  - path: /monitoring\n    action:\n        pass: dashboard",
        "apiVersion: k8s.nginx.org/v1\nkind: VirtualServer\nmetadata:\n  name: com-example-app\n  namespace: ingress\nspec:\n  host: app.example.com\n  tls:\n    secret: com-example-app-tls\n  routes:\n  - path: /\n    route: default/com-example-app-frontend\n  - path: /api\n    route: default/com-example-app-backend\n  - path: /monitoring\n    route: monitoring/com-example-app-dashboard",
        "apiVersion: k8s.nginx.org/v1\nkind: VirtualServerRoute\nmetadata:\n  name: com-example-app-frontend\n  namespace: default\nspec:\n  host: app.example.com\n  upstreams:\n  - name: frontend\n    service: frontend\n    port: 80\n  subroutes:\n  - path: /\n    action:\n        pass: frontend",
        "apiVersion: k8s.nginx.org/v1\nkind: VirtualServerRoute\nmetadata:\n  name: com-example-app-backend\n  namespace: default\nspec:\n  host: app.example.com\n  upstreams:\n  - name: backend\n    service: backend\n    port: 80\n  subroutes:\n  - path: /api\n    action:\n        pass: backend",
        "apiVersion: k8s.nginx.org/v1\nkind: VirtualServerRoute\nmetadata:\n  name: com-example-app-dashboard\n  namespace: monitoring\nspec:\n  host: app.example.com\n  upstreams:\n  - name: dashboard\n    service: dashboard\n    port: 80\n  subroutes:\n  - path: /monitoring\n    action:\n        pass: dashboard",
    ])
}

fn expected_minimal() -> String {
    file_of(&[
        "apiVersion: apps/v1\nkind: Deployment\nmetadata:\n  namespace: default\n  name: frontend\nspec:\n  replicas: 1\n  selector:\n    matchLabels:\n      app: frontend\n  template:\n    metadata:\n      labels:\n        app: frontend\n    spec:\n      containers:\n      - name: frontend\n        image: cr.example.com/frontend:minimal-latest\n        imagePullPolicy: Always\n        ports:\n        - containerPort: 80",
        "apiVersion: v1\nkind: Service\nmetadata:\n  namespace: default\n  name: frontend\nspec:\n  type: ClusterIP\n  selector:\n    app: frontend\n  ports:\n  - port: 80\n    targetPort: 80",
        "apiVersion: apps/v1\nkind: Deployment\nmetadata:\n  namespace: default\n  name: backend\nspec:\n  replicas: 1\n  selector:\n    matchLabels:\n      app: backend\n  template:\n    metadata:\n      labels:\n        app: backend\n    spec:\n      containers:\n      - name: backend\n        image: cr.example.com/backend:minimal-latest\n        imagePullPolicy: Always\n        ports:\n        - containerPort: 80",
        "apiVersion: v1\nkind: Service\nmetadata:\n  namespace: default\n  name: backend\nspec:\n  type: ClusterIP\n  selector:\n    app: backend\n  ports:\n  - port: 80\n    targetPort: 80",
        "apiVersion: source.toolkit.fluxcd.io/v1beta1\nkind: HelmRepository\nmetadata:\n  name: ingress\n  namespace: ingress-system\nspec:\n  interval: 1m\n  url: \"https://helm.nginx.com/stable\"",
        "apiVersion: helm.toolkit.fluxcd.io/v2beta1\nkind: HelmRelease\nmetadata:\n  name: ingress\n  namespace: ingress-system\nspec:\n  chart:\n    spec:\n      sourceRef:\n        kind: HelmRepository\n        name: ingress\n      chart: nginx-ingress\n      version: 0.15.2\n  interval: 1m\n  values:\n    controller:\n      enableCertManager: true\n      name: ingress\n      enableLatencyMetrics: true\n      config:\n        name: ingress\n      service:\n        name: ingress\n      serviceAccount:\n        name: ingress\n      reportIngressStatus:\n        leaderElectionLockName: ingress-leader-election\n    prometheus:\n      create: false",
        "apiVersion: k8s.nginx.org/v1\nkind: VirtualServer\nmetadata:\n  name: localhost\n  namespace: ingress\nspec:\n  host: localhost\n  tls:\n    secret: localhost-tls\n  routes:\n  - path: /\n    route: default/localhost-frontend\n  - path: /api\n    route: default/localhost-backend",
        "apiVersion: k8s.nginx.org/v1\nkind: VirtualServerRoute\nmetadata:\n  name: localhost-frontend\n  namespace: default\nspec:\n  host: localhost\n  upstreams:\n  - name: frontend\n    service: frontend\n    port: 80\n  subroutes:\n  - path: /\n    action:\n        pass: frontend",
        "apiVersion: k8s.nginx.org/v1\nkind: VirtualServerRoute\nmetadata:\n  name: localhost-backend\n  namespace: default\nspec:\n  host: localhost\n  upstreams:\n  - name: backend\n    service: backend\n    port: 80\n  subroutes:\n  - path: /api\n    action:\n        pass: backend",
    ])
}

#[test]
fn build_writes_the_prod_stage() {
    let files = built();
    assert_eq!(files[0].path, vec!["clusters", "prod", "resources.yaml"]);
    assert_eq!(files[0].contents, expected_prod());
}

#[test]
fn build_writes_the_minimal_stage() {
    let files = built();
    assert_eq!(files[4].path, vec!["clusters", "minimal", "resources.yaml"]);
    assert_eq!(files[4].contents, expected_minimal());
}
#[test]
fn build_gives_one_file_for_each_stage_in_order() {
    let files = built();
    let stages: Vec<String> = files.iter().map(|file| file.path[1].clone()).collect();
    assert_eq!(stages, vec!["prod", "dev", "test", "local", "minimal"]);
    for file in files.iter() {
        assert_eq!(file.path.len(), 3);
        assert_eq!(file.path[0], "clusters");
        assert_eq!(file.path[2], "resources.yaml");
    }
}

#[test]
fn build_twice_gives_the_same_files() {
    assert_eq!(built(), built());
}

#[test]
fn path_of_names_the_directory_by_the_stage() {
    assert_eq!(path_of(Stage::Dev), vec!["clusters", "dev", "resources.yaml"]);
    assert_eq!(path_of(Stage::Minimal), vec!["clusters", "minimal", "resources.yaml"]);
}

#[test]
fn minimal_stage_emits_nine_documents() {
    let deployment = Deployment { config: minimal(), packages: packages() };
    let documents = deployment.documents();
    assert_eq!(documents.len(), 9);
    assert!(matches!(&documents[0], ResourceDocument::Workload { name, .. } if name == "frontend"));
    assert!(matches!(&documents[1], ResourceDocument::Exposure { name, .. } if name == "frontend"));
    assert!(matches!(&documents[2], ResourceDocument::Workload { name, .. } if name == "backend"));
    assert!(matches!(&documents[3], ResourceDocument::Exposure { name, .. } if name == "backend"));
    assert!(matches!(&documents[4], ResourceDocument::HelmRepository { .. }));
    assert!(matches!(&documents[5], ResourceDocument::HelmRelease { .. }));
    match &documents[6] {
        ResourceDocument::VirtualServer { name, host, routes, .. } => {
            assert_eq!(name, "localhost");
            assert_eq!(host, "localhost");
            let paths: Vec<&str> = routes.iter().map(|rule| rule.path.as_str()).collect();
            assert_eq!(paths, vec!["/", "/api"]);
            let targets: Vec<&str> = routes.iter().map(|rule| rule.target.as_str()).collect();
            assert_eq!(targets, vec!["default/localhost-frontend", "default/localhost-backend"]);
        }
        other => panic!("expected a virtual server, found {:?}", other),
    }
    assert!(matches!(
        &documents[7],
        ResourceDocument::VirtualServerRoute { host, service, .. } if host == "localhost" && service == "frontend"
    ));
    assert!(matches!(
        &documents[8],
        ResourceDocument::VirtualServerRoute { host, service, .. } if host == "localhost" && service == "backend"
    ));
    let dashboards = documents
        .iter()
        .filter(|document| matches!(document, ResourceDocument::VirtualServerRoute { service, .. } if service == "dashboard"))
        .count();
    assert_eq!(dashboards, 0);
}

#[test]
fn prod_stage_emits_fourteen_documents() {
    let deployment = Deployment { config: prod(), packages: packages() };
    assert_eq!(deployment.documents().len(), 14);
    assert_eq!(deployment.resources().len(), 14);
}

#[test]
fn stage_file_joins_the_resources_with_separator_lines() {
    for deployment in deployments().iter() {
        let file = stage_file(deployment).expect("every stage is valid");
        let mut expected = deployment.resources().join("\n---\n");
        expected.push('\n');
        assert_eq!(file.contents, expected);
    }
}

#[test]
fn stage_file_without_packages_holds_one_line_end() {
    let deployment = Deployment { config: minimal(), packages: vec![] };
    let file = stage_file(&deployment).expect("the minimal stage is valid");
    assert_eq!(file.contents, "\n");
    assert_eq!(file.path, vec!["clusters", "minimal", "resources.yaml"]);
}

#[test]
fn stage_file_of_colliding_domains_is_refused() {
    let mut config = prod();
    config.manifest.infrastructure.ingress.domains =
        vec!["a-b.c".to_string(), "b.c-a".to_string()];
    let deployment = Deployment { config, packages: packages() };
    assert_eq!(
        stage_file(&deployment),
        Err(ConfigError::NameCollision {
            first: "a-b.c".to_string(),
            second: "b.c-a".to_string(),
            name: "c-a-b".to_string(),
        })
    );
}

#[test]
fn stage_file_of_an_empty_tag_is_refused() {
    let mut config = prod();
    config.manifest.apps.backend.image.reference.tag = String::new();
    let deployment = Deployment { config, packages: packages() };
    assert_eq!(
        stage_file(&deployment),
        Err(ConfigError::EmptyImageTag { application: "backend".to_string() })
    );
}
