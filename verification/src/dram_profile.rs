//! DRAM profiles for Minerva memory training, and which memory chip uses
//! which.

use crate::table::{record_size_of, ProfileError, ProfileTable, RecordLayout};
use vstd::prelude::*;

verus! {

/// The SDRAM ID for the Samsung K4F6E304HB-MGCH LPDDR4 DRAM block.
pub const DRAM_4GB_SAMSUNG_K4F6E304HB_MGCH: u32 = 0;

/// The SDRAM ID for the SK Hynix H9HCNNNBPUMLHR-HLN LPDDR4 DRAM block.
pub const DRAM_4GB_HYNIX_H9HCNNNBPUMLHR_NLN: u32 = 1;

/// The SDRAM ID for the Mouser Micron MT53B512M32D2NP-062-WT:C LPDDR4 DRAM block.
pub const DRAM_4GB_MICRON_MT53B512M32D2NP_062_WT: u32 = 2;

/// The SDRAM ID for the Samsung Copper LPDDR4 DRAM block.
pub const DRAM_4GB_COPPER_SAMSUNG: u32 = 3;

/// The SDRAM ID for the Samsung K4FHE3D4HM-MFCH LPDDR4 DRAM block.
pub const DRAM_6GB_SAMSUNG_K4FHE3D4HM_MFCH: u32 = 4;

/// The SDRAM ID for the SK Hynix Copper LPDDR4 DRAM block.
pub const DRAM_4GB_COPPER_HYNIX: u32 = 5;

/// The SDRAM ID for the Mouser Micron Copper LPDDR4 DRAM block.
pub const DRAM_4GB_COPPER_MICRON: u32 = 6;

/// The length in bytes of every profile blob.
pub const PROFILE_BLOB_LEN: usize = 49280;

/// The Nintendo Switch DRAM profiles.
#[derive(Debug, Copy, Clone, PartialEq, Eq, Structural)]
pub enum DramProfile {
    /// The profile for devices with SDRAM IDs of `0`, `2`, `3` and `4`.
    Sdram0NxAbca2V0_3,
    /// The profile for devices with an SDRAM ID of `1`.
    Sdram1NxAbca2V2_0,
    /// A profile that no SDRAM ID selects.
    Sdram2NxAbca2V0_3,
    /// A profile that no SDRAM ID selects.
    Sdram3NxAbca2V0_3,
    /// A profile that no SDRAM ID selects.
    Sdram4NxAbca2V1_0,
}

/// The profile that the memory chip with SDRAM ID `id` is trained with, if
/// the chip is supported.
pub open spec fn profile_of(id: u32) -> Option<DramProfile> {
    if id == DRAM_4GB_SAMSUNG_K4F6E304HB_MGCH {
        Some(DramProfile::Sdram0NxAbca2V0_3)
    } else if id == DRAM_4GB_HYNIX_H9HCNNNBPUMLHR_NLN {
        Some(DramProfile::Sdram1NxAbca2V2_0)
    } else if id == DRAM_4GB_MICRON_MT53B512M32D2NP_062_WT {
        Some(DramProfile::Sdram0NxAbca2V0_3)
    } else if id == DRAM_4GB_COPPER_SAMSUNG {
        Some(DramProfile::Sdram0NxAbca2V0_3)
    } else if id == DRAM_6GB_SAMSUNG_K4FHE3D4HM_MFCH {
        Some(DramProfile::Sdram0NxAbca2V0_3)
    } else {
        None
    }
}

/// The profile for the memory chip with SDRAM ID `id`, or `None` where the
/// chip is not supported.
pub fn get_by_sdram_id(id: u32) -> (profile: Option<DramProfile>)
    ensures
        profile == profile_of(id),
        profile.is_some() <==> id <= 4,
{
    match id {
        DRAM_4GB_SAMSUNG_K4F6E304HB_MGCH => Some(DramProfile::Sdram0NxAbca2V0_3),
        DRAM_4GB_HYNIX_H9HCNNNBPUMLHR_NLN => Some(DramProfile::Sdram1NxAbca2V2_0),
        DRAM_4GB_MICRON_MT53B512M32D2NP_062_WT => Some(DramProfile::Sdram0NxAbca2V0_3),
        DRAM_4GB_COPPER_SAMSUNG => Some(DramProfile::Sdram0NxAbca2V0_3),
        DRAM_6GB_SAMSUNG_K4FHE3D4HM_MFCH => Some(DramProfile::Sdram0NxAbca2V0_3),
        _ => None,
    }
}

/// The blobs of the five profiles, checked for their length, and the layout
/// their records are read by.
#[derive(Debug, Copy, Clone)]
pub struct ProfileRegistry<'a> {
    sdram0: &'a [u8],
    sdram1: &'a [u8],
    sdram2: &'a [u8],
    sdram3: &'a [u8],
    sdram4: &'a [u8],
    layout: RecordLayout,
}

impl<'a> ProfileRegistry<'a> {
    /// The bytes of the blob of `profile`.
    pub closed spec fn spec_blob(self, profile: DramProfile) -> Seq<u8> {
        match profile {
            DramProfile::Sdram0NxAbca2V0_3 => self.sdram0@,
            DramProfile::Sdram1NxAbca2V2_0 => self.sdram1@,
            DramProfile::Sdram2NxAbca2V0_3 => self.sdram2@,
            DramProfile::Sdram3NxAbca2V0_3 => self.sdram3@,
            DramProfile::Sdram4NxAbca2V1_0 => self.sdram4@,
        }
    }

    /// The layout the records are read by.
    pub closed spec fn spec_layout(self) -> RecordLayout {
        self.layout
    }

    /// Every blob has the length of a profile, and a record of such a blob
    /// holds both fields of the layout.
    pub open spec fn wf(self) -> bool {
        &&& forall|profile: DramProfile| #[trigger]
            self.spec_blob(profile).len() == PROFILE_BLOB_LEN
        &&& self.spec_layout().fits(record_size_of(PROFILE_BLOB_LEN as int))
    }

    /// A registry of the five blobs.
    ///
    /// Fails with `MalformedAsset` exactly when a blob has not the length of
    /// a profile, and with `FieldOutOfRecord` exactly when all have it but a
    /// record is too short for a field of `layout`.
    pub fn new(
        sdram0: &'a [u8],
        sdram1: &'a [u8],
        sdram2: &'a [u8],
        sdram3: &'a [u8],
        sdram4: &'a [u8],
        layout: RecordLayout,
    ) -> (registry: Result<ProfileRegistry<'a>, ProfileError>)
        ensures
            ({
                let lengths_ok = sdram0@.len() == PROFILE_BLOB_LEN && sdram1@.len()
                    == PROFILE_BLOB_LEN && sdram2@.len() == PROFILE_BLOB_LEN && sdram3@.len()
                    == PROFILE_BLOB_LEN && sdram4@.len() == PROFILE_BLOB_LEN;
                match registry {
                    Ok(r) => {
                        &&& lengths_ok
                        &&& layout.fits(record_size_of(PROFILE_BLOB_LEN as int))
                        &&& r.wf()
                        &&& r.spec_layout() == layout
                        &&& r.spec_blob(DramProfile::Sdram0NxAbca2V0_3) == sdram0@
                        &&& r.spec_blob(DramProfile::Sdram1NxAbca2V2_0) == sdram1@
                        &&& r.spec_blob(DramProfile::Sdram2NxAbca2V0_3) == sdram2@
                        &&& r.spec_blob(DramProfile::Sdram3NxAbca2V0_3) == sdram3@
                        &&& r.spec_blob(DramProfile::Sdram4NxAbca2V1_0) == sdram4@
                    },
                    Err(ProfileError::MalformedAsset) => !lengths_ok,
                    Err(ProfileError::FieldOutOfRecord) => lengths_ok && !layout.fits(
                        record_size_of(PROFILE_BLOB_LEN as int),
                    ),
                }
            }),
    {
        if sdram0.len() != PROFILE_BLOB_LEN || sdram1.len() != PROFILE_BLOB_LEN || sdram2.len()
            != PROFILE_BLOB_LEN || sdram3.len() != PROFILE_BLOB_LEN || sdram4.len()
            != PROFILE_BLOB_LEN {
            return Err(ProfileError::MalformedAsset);
        }
        if !layout.fits_in(PROFILE_BLOB_LEN / 10) {
            return Err(ProfileError::FieldOutOfRecord);
        }
        Ok(ProfileRegistry { sdram0, sdram1, sdram2, sdram3, sdram4, layout })
    }

    /// The blob of `profile`.
    pub fn blob(&self, profile: DramProfile) -> (blob: &'a [u8])
        ensures
            blob@ == self.spec_blob(profile),
    {
        match profile {
            DramProfile::Sdram0NxAbca2V0_3 => self.sdram0,
            DramProfile::Sdram1NxAbca2V2_0 => self.sdram1,
            DramProfile::Sdram2NxAbca2V0_3 => self.sdram2,
            DramProfile::Sdram3NxAbca2V0_3 => self.sdram3,
            DramProfile::Sdram4NxAbca2V1_0 => self.sdram4,
        }
    }

    /// The table of the memory chip with SDRAM ID `id`: the blob of its
    /// profile, split into ten records. `None` exactly where the chip is not
    /// supported.
    pub fn resolve(&self, id: u32) -> (table: Option<ProfileTable<'a>>)
        requires
            self.wf(),
        ensures
            match profile_of(id) {
                Some(profile) => {
                    &&& table.is_some()
                    &&& table.unwrap().wf()
                    &&& table.unwrap().spec_blob() == self.spec_blob(profile)
                    &&& table.unwrap().spec_layout() == self.spec_layout()
                    &&& table.unwrap()@.len() == 10
                },
                None => table.is_none(),
            },
    {
        match get_by_sdram_id(id) {
            Some(profile) => {
                let blob = self.blob(profile);
                match ProfileTable::from_blob(blob, self.layout) {
                    Ok(table) => Some(table),
                    Err(_) => None,
                }
            },
            None => None,
        }
    }
}

} // verus!
