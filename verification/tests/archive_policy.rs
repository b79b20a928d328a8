//! The archive packing policy: inclusion filtering and the manifest
//! precondition.
use npcnix::archive::{EntryKind, FsEntry, pack_plan};
use npcnix::verify_flake_src;

fn entry(name: &str, kind: EntryKind) -> FsEntry {
    FsEntry { name: name.to_string(), kind }
}

fn sample_tree() -> Vec<FsEntry> {
    vec![
        entry("nixos", EntryKind::Directory),
        entry("secrets", EntryKind::Directory),
        entry("flake.nix", EntryKind::RegularFile),
        entry("flake.lock", EntryKind::RegularFile),
        entry("current", EntryKind::Symlink { target_absolute: false }),
        entry("host-store", EntryKind::Symlink { target_absolute: true }),
        entry("dev0", EntryKind::Other),
    ]
}

#[test]
fn empty_inclusion_keeps_everything_but_absolute_symlinks_and_specials() {
    let packed = pack_plan(&sample_tree(), &vec![]);
    let names: Vec<&str> = packed.iter().map(|e| e.name.as_str()).collect();
    assert_eq!(
        names,
        vec!["nixos", "secrets", "flake.nix", "flake.lock", "current"]
    );
}

#[test]
fn inclusion_set_filters_directories_only() {
    let packed = pack_plan(&sample_tree(), &vec!["nixos".to_string()]);
    let names: Vec<&str> = packed.iter().map(|e| e.name.as_str()).collect();
    assert_eq!(names, vec!["nixos", "flake.nix", "flake.lock", "current"]);
}

#[test]
fn inclusion_set_not_naming_any_directory_keeps_files_and_symlinks() {
    let packed = pack_plan(&sample_tree(), &vec!["absent".to_string()]);
    let names: Vec<&str> = packed.iter().map(|e| e.name.as_str()).collect();
    assert_eq!(names, vec!["flake.nix", "flake.lock", "current"]);
}

#[test]
fn packing_preserves_entry_payloads() {
    let packed = pack_plan(&sample_tree(), &vec![]);
    assert_eq!(packed[0], entry("nixos", EntryKind::Directory));
    assert_eq!(
        packed[4],
        entry("current", EntryKind::Symlink { target_absolute: false })
    );
}

#[test]
fn packing_an_empty_tree_yields_an_empty_archive() {
    let packed = pack_plan(&vec![], &vec![]);
    assert!(packed.is_empty());
}

#[test]
fn flake_manifest_is_required() {
    assert!(verify_flake_src(&sample_tree()).is_ok());
    let bare = vec![entry("nixos", EntryKind::Directory)];
    assert!(matches!(
        verify_flake_src(&bare),
        Err(npcnix::NpcnixError::MissingFlakeManifest)
    ));
    assert!(matches!(
        verify_flake_src(&vec![]),
        Err(npcnix::NpcnixError::MissingFlakeManifest)
    ));
}

#[test]
fn flake_manifest_may_be_any_entry_kind() {
    let as_dir = vec![entry("flake.nix", EntryKind::Directory)];
    assert!(verify_flake_src(&as_dir).is_ok());
}
