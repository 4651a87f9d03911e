use gitops_manifests::model::ImageRef;
use gitops_manifests::model::PullPolicy;
use gitops_manifests::model::ServiceType;
use gitops_manifests::model::Stage;

#[test]
fn stage_to_string_gives_the_lower_case_identifier() {
    assert_eq!(Stage::Prod.to_string(), "prod");
    assert_eq!(Stage::Dev.to_string(), "dev");
    assert_eq!(Stage::Test.to_string(), "test");
    assert_eq!(Stage::Local.to_string(), "local");
    assert_eq!(Stage::Minimal.to_string(), "minimal");
}

#[test]
fn stage_identifiers_are_pairwise_different() {
    let stages = [Stage::Prod, Stage::Dev, Stage::Test, Stage::Local, Stage::Minimal];
    for (i, first) in stages.iter().enumerate() {
        for (j, second) in stages.iter().enumerate() {
            assert_eq!(first.to_string() == second.to_string(), i == j);
        }
    }
}

#[test]
fn pull_policy_to_string_names_the_policy() {
    assert_eq!(PullPolicy::Always.to_string(), "Always");
    assert_eq!(PullPolicy::IfNotPresent.to_string(), "IfNotPresent");
    assert_eq!(PullPolicy::Never.to_string(), "Never");
}

#[test]
fn service_type_to_string_names_the_type() {
    assert_eq!(ServiceType::ClusterIP.to_string(), "ClusterIP");
    assert_eq!(ServiceType::NodePort.to_string(), "NodePort");
    assert_eq!(ServiceType::LoadBalancer.to_string(), "LoadBalancer");
}

#[test]
fn image_ref_to_string_gives_the_pull_string() {
    let reference = ImageRef {
        registry: "cr.example.com".to_string(),
        name: "frontend".to_string(),
        tag: "prod-latest".to_string(),
    };
    assert_eq!(reference.to_string(), "cr.example.com/frontend:prod-latest");
    let bare = ImageRef { registry: String::new(), name: String::new(), tag: String::new() };
    assert_eq!(bare.to_string(), "/:");
}

#[test]
fn image_ref_clone_copies_every_part() {
    let reference = ImageRef {
        registry: "registry.local:5000".to_string(),
        name: "team/app".to_string(),
        tag: "1.2.3".to_string(),
    };
    assert_eq!(reference.clone(), reference);
}
