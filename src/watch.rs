use vstd::prelude::*;

use notify::event::{
    AccessKind, AccessMode, CreateKind, DataChange, MetadataKind, ModifyKind, RemoveKind, RenameMode,
};
use notify::EventKind;

verus! {

/// notify's kind of a file-system event; its variants are read by `is_reload_event`.
#[verifier::external_type_specification]
pub struct ExEventKind(EventKind);

/// notify's kind of an access event.
#[verifier::external_type_specification]
pub struct ExAccessKind(AccessKind);

/// notify's mode of an access event.
#[verifier::external_type_specification]
pub struct ExAccessMode(AccessMode);

/// notify's kind of a creation event.
#[verifier::external_type_specification]
pub struct ExCreateKind(CreateKind);

/// notify's kind of a modification event.
#[verifier::external_type_specification]
pub struct ExModifyKind(ModifyKind);

/// notify's kind of a content change.
#[verifier::external_type_specification]
pub struct ExDataChange(DataChange);

/// notify's kind of a metadata change.
#[verifier::external_type_specification]
pub struct ExMetadataKind(MetadataKind);

/// notify's mode of a rename event.
#[verifier::external_type_specification]
pub struct ExRenameMode(RenameMode);

/// notify's kind of a removal event.
#[verifier::external_type_specification]
pub struct ExRemoveKind(RemoveKind);

/// Whether a file-system event may have changed the configuration file: a
/// file was created, a file's content changed, or an entry was renamed.
pub open spec fn triggers_reload(kind: EventKind) -> bool {
    ||| kind == EventKind::Create(CreateKind::File)
    ||| kind == EventKind::Modify(ModifyKind::Data(DataChange::Content))
    ||| kind matches EventKind::Modify(ModifyKind::Name(_))
}

/// Classifies a watcher event; other kinds (metadata, access, removal) are
/// ignored.
pub fn is_reload_event(kind: &EventKind) -> (r: bool)
    ensures
        r == triggers_reload(*kind),
{
    match kind {
        EventKind::Create(CreateKind::File) => true,
        EventKind::Modify(ModifyKind::Data(DataChange::Content)) => true,
        EventKind::Modify(ModifyKind::Name(_)) => true,
        _ => false,
    }
}

} // verus!
