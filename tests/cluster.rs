use bakerst_install::k8s::{split_documents, ResourceKind};

#[test]
fn splits_multi_document_yaml() {
    let yaml = "apiVersion: v1\nkind: Service\n---\n# only a comment\n---\n\n---\n  kind: Deployment  \n";
    assert_eq!(split_documents(yaml), vec!["apiVersion: v1\nkind: Service".to_string(), "kind: Deployment".to_string()]);
    assert!(split_documents("").is_empty());
    assert_eq!(split_documents("kind: ConfigMap"), vec!["kind: ConfigMap".to_string()]);
    assert_eq!(split_documents("a\n---b"), vec!["a".to_string(), "b".to_string()]);
}

#[test]
fn resource_kinds() {
    assert_eq!(ResourceKind::from_kind("Deployment"), Some(ResourceKind::Deployment));
    assert_eq!(ResourceKind::from_kind("NetworkPolicy"), Some(ResourceKind::NetworkPolicy));
    assert_eq!(ResourceKind::from_kind("CronJob"), None);
    assert_eq!(ResourceKind::from_kind("deployment"), None);
    assert!(!ResourceKind::Namespace.is_namespaced());
    assert!(ResourceKind::Secret.is_namespaced());
}
