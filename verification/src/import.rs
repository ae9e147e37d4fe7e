//! Instance import as the front end sees it: the launchers an instance can be
//! imported from, and which of them are supported.

use vstd::prelude::*;
use vstd::std_specs::convert::FromSpec;
use vstd::std_specs::convert::FromSpecImpl;
use vstd::string::StringExecFns;

verus! {

/// A source of importable instances, as the importer knows it. The archive
/// variants carry the path of the archive.
#[derive(Debug, PartialEq, Eq)]
pub enum Entity {
    LegacyGDLauncher,
    MRPack(String),
    Modrinth,
    CurseForgeZip(String),
    CurseForge,
    ATLauncher,
    Technic,
    FTB,
    MultiMC,
    PrismLauncher,
}

/// A source of importable instances, as the front end names it.
#[derive(Debug, PartialEq, Eq)]
pub enum FEEntity {
    LegacyGDLauncher,
    MRPack(String),
    Modrinth,
    CurseForgeZip(String),
    CurseForge,
    ATLauncher,
    Technic,
    FTB,
    MultiMC,
    PrismLauncher,
}

/// An instance found by the importer.
#[derive(Debug, PartialEq, Eq)]
pub struct ImportableInstance {
    pub name: String,
}

/// An instance that can be imported, as the front end sees it.
#[derive(Debug, PartialEq, Eq)]
pub struct FEImportableInstance {
    pub name: String,
}

/// A request to import the instance at `index` from `entity` under `name`.
#[derive(Debug, PartialEq, Eq)]
pub struct FEImportInstance {
    pub entity: FEEntity,
    pub index: u32,
    pub name: String,
}

impl From<FEEntity> for Entity {
    fn from(entity: FEEntity) -> (converted: Self) {
        match entity {
            FEEntity::LegacyGDLauncher => Entity::LegacyGDLauncher,
            FEEntity::MRPack(path) => Entity::MRPack(path),
            FEEntity::Modrinth => Entity::Modrinth,
            FEEntity::CurseForgeZip(path) => Entity::CurseForgeZip(path),
            FEEntity::CurseForge => Entity::CurseForge,
            FEEntity::ATLauncher => Entity::ATLauncher,
            FEEntity::Technic => Entity::Technic,
            FEEntity::FTB => Entity::FTB,
            FEEntity::MultiMC => Entity::MultiMC,
            FEEntity::PrismLauncher => Entity::PrismLauncher,
        }
    }
}

impl FromSpecImpl<FEEntity> for Entity {
    open spec fn obeys_from_spec() -> bool {
        true
    }

    open spec fn from_spec(entity: FEEntity) -> Self {
        match entity {
            FEEntity::LegacyGDLauncher => Entity::LegacyGDLauncher,
            FEEntity::MRPack(path) => Entity::MRPack(path),
            FEEntity::Modrinth => Entity::Modrinth,
            FEEntity::CurseForgeZip(path) => Entity::CurseForgeZip(path),
            FEEntity::CurseForge => Entity::CurseForge,
            FEEntity::ATLauncher => Entity::ATLauncher,
            FEEntity::Technic => Entity::Technic,
            FEEntity::FTB => Entity::FTB,
            FEEntity::MultiMC => Entity::MultiMC,
            FEEntity::PrismLauncher => Entity::PrismLauncher,
        }
    }
}

impl From<Entity> for FEEntity {
    fn from(entity: Entity) -> (converted: Self) {
        match entity {
            Entity::LegacyGDLauncher => FEEntity::LegacyGDLauncher,
            Entity::MRPack(path) => FEEntity::MRPack(path),
            Entity::Modrinth => FEEntity::Modrinth,
            Entity::CurseForgeZip(path) => FEEntity::CurseForgeZip(path),
            Entity::CurseForge => FEEntity::CurseForge,
            Entity::ATLauncher => FEEntity::ATLauncher,
            Entity::Technic => FEEntity::Technic,
            Entity::FTB => FEEntity::FTB,
            Entity::MultiMC => FEEntity::MultiMC,
            Entity::PrismLauncher => FEEntity::PrismLauncher,
        }
    }
}

impl FromSpecImpl<Entity> for FEEntity {
    open spec fn obeys_from_spec() -> bool {
        true
    }

    open spec fn from_spec(entity: Entity) -> Self {
        match entity {
            Entity::LegacyGDLauncher => FEEntity::LegacyGDLauncher,
            Entity::MRPack(path) => FEEntity::MRPack(path),
            Entity::Modrinth => FEEntity::Modrinth,
            Entity::CurseForgeZip(path) => FEEntity::CurseForgeZip(path),
            Entity::CurseForge => FEEntity::CurseForge,
            Entity::ATLauncher => FEEntity::ATLauncher,
            Entity::Technic => FEEntity::Technic,
            Entity::FTB => FEEntity::FTB,
            Entity::MultiMC => FEEntity::MultiMC,
            Entity::PrismLauncher => FEEntity::PrismLauncher,
        }
    }
}

impl From<ImportableInstance> for FEImportableInstance {
    fn from(instance: ImportableInstance) -> (converted: Self) {
        FEImportableInstance { name: instance.name }
    }
}

impl FromSpecImpl<ImportableInstance> for FEImportableInstance {
    open spec fn obeys_from_spec() -> bool {
        true
    }

    open spec fn from_spec(instance: ImportableInstance) -> Self {
        FEImportableInstance { name: instance.name }
    }
}

/// Converting to the importer's form and back gives the same entity.
pub proof fn lemma_entity_round_trip(entity: FEEntity)
    ensures
        <FEEntity as FromSpec<Entity>>::from_spec(
            <Entity as FromSpec<FEEntity>>::from_spec(entity),
        ) == entity,
{
}

/// Scanning, listing and importing are supported for the legacy launcher
/// only; every other entity is refused with the message `Unsupported entity`.
pub fn check_supported(entity: &FEEntity) -> (result: Result<(), String>)
    ensures
        match result {
            Ok(_) => entity is LegacyGDLauncher,
            Err(message) => !(entity is LegacyGDLauncher) && message@ == "Unsupported entity"@,
        },
{
    match entity {
        FEEntity::LegacyGDLauncher => Ok(()),
        _ => Err(String::from_str("Unsupported entity")),
    }
}

/// The front-end form of every instance found, in the order found.
pub fn importable_instances(instances: Vec<ImportableInstance>) -> (listed: Vec<
    FEImportableInstance,
>)
    ensures
        listed.len() == instances.len(),
        forall|i: int| 0 <= i < instances.len() ==> (#[trigger] listed[i]).name == instances[i].name,
{
    let ghost given = instances@;
    let mut listed: Vec<FEImportableInstance> = Vec::new();
    for instance in found: instances
        invariant
            found.seq() == given,
            listed.len() == found.index(),
            forall|i: int| 0 <= i < listed.len() ==> (#[trigger] listed[i]).name == given[i].name,
    {
        listed.push(FEImportableInstance::from(instance));
    }
    listed
}

} // verus!
