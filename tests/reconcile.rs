use bystep_launcher::reconcile::{catalog_failure_is_error, catalog_wants, plan_reconcile, CatalogKind};
use bystep_launcher::types::GitHubFile;

fn remote(name: &str, kind: &str, url: Option<&str>) -> GitHubFile {
    GitHubFile { name: name.to_string(), download_url: url.map(|u| u.to_string()), file_type: kind.to_string() }
}

fn names(v: &[&str]) -> Vec<String> {
    v.iter().map(|s| s.to_string()).collect()
}

#[test]
fn mods_reconciled_to_catalog() {
    let local = names(&["A.jar", "B.jar"]);
    let catalog = vec![remote("B.jar", "file", Some("https://x/B.jar")), remote("C.jar", "file", Some("https://x/C.jar"))];
    let plan = plan_reconcile(CatalogKind::Mods, &local, &catalog);
    assert_eq!(plan.delete, names(&["A.jar"]));
    assert_eq!(plan.download.len(), 1);
    assert_eq!(plan.download[0].path, "C.jar");
    assert_eq!(plan.download[0].url, "https://x/C.jar");
    let mut after: Vec<String> = local.into_iter().filter(|n| !plan.delete.contains(n)).collect();
    after.extend(plan.download.iter().map(|t| t.path.clone()));
    after.sort();
    assert_eq!(after, names(&["B.jar", "C.jar"]));
}

#[test]
fn mods_keep_non_mod_files_and_skip_directories() {
    let local = names(&["notes.txt", "old.zip"]);
    let catalog = vec![remote("sub", "dir", Some("u")), remote("readme.md", "file", Some("u")), remote("new.zip", "file", None)];
    let plan = plan_reconcile(CatalogKind::Mods, &local, &catalog);
    assert_eq!(plan.delete, names(&["old.zip"]));
    assert!(plan.download.is_empty());
}

#[test]
fn packs_are_never_deleted() {
    let local = names(&["mine.zip"]);
    let catalog = vec![remote("pack.zip", "file", Some("u1")), remote("pack.jar", "file", Some("u2"))];
    let plan = plan_reconcile(CatalogKind::Shaderpacks, &local, &catalog);
    assert!(plan.delete.is_empty());
    assert_eq!(plan.download.len(), 1);
    assert_eq!(plan.download[0].path, "pack.zip");
    let again = plan_reconcile(CatalogKind::Resourcepacks, &names(&["mine.zip", "pack.zip"]), &catalog);
    assert!(again.download.is_empty());
}

#[test]
fn catalog_filters() {
    assert!(catalog_wants(CatalogKind::Mods, &remote("a.jar", "file", None)));
    assert!(catalog_wants(CatalogKind::Mods, &remote("a.zip", "file", None)));
    assert!(!catalog_wants(CatalogKind::Mods, &remote("a.jar", "dir", None)));
    assert!(!catalog_wants(CatalogKind::Resourcepacks, &remote("a.jar", "file", None)));
}

#[test]
fn only_mod_catalog_failures_are_errors() {
    assert!(catalog_failure_is_error(CatalogKind::Mods));
    assert!(!catalog_failure_is_error(CatalogKind::Shaderpacks));
    assert!(!catalog_failure_is_error(CatalogKind::Resourcepacks));
}
