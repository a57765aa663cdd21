//! The configuration blob handed to the engine by a `Reset` message.
use vstd::prelude::*;
use vstd::string::StringSliceAdditionalSpecFns;

verus! {

/// The kind of battery-backed storage a cartridge carries.
#[allow(non_camel_case_types)]
#[derive(Copy, Clone, Debug, PartialEq, Eq, Structural, PartialOrd, Ord, Hash)]
pub enum BackupStorageType {
    EEPROM_4K,
    EEPROM_64K,
    SRAM,
    Flash64,
    Flash128,
}

impl BackupStorageType {
    pub open spec fn spec_name(self) -> Seq<char> {
        match self {
            BackupStorageType::EEPROM_4K => "EEPROM_4K"@,
            BackupStorageType::EEPROM_64K => "EEPROM_64K"@,
            BackupStorageType::SRAM => "SRAM"@,
            BackupStorageType::Flash64 => "Flash64"@,
            BackupStorageType::Flash128 => "Flash128"@,
        }
    }

    /// The name under which the storage type is shown to users.
    pub fn name(&self) -> (r: &'static str)
        ensures
            r@ == self.spec_name(),
    {
        match self {
            BackupStorageType::EEPROM_4K => "EEPROM_4K",
            BackupStorageType::EEPROM_64K => "EEPROM_64K",
            BackupStorageType::SRAM => "SRAM",
            BackupStorageType::Flash64 => "Flash64",
            BackupStorageType::Flash128 => "Flash128",
        }
    }
}

/// Why a configuration change was rejected.
#[derive(Copy, Clone, Debug, PartialEq, Eq, Structural)]
pub enum ConfigError {
    /// The storage type cannot change once backup data is attached.
    BackupDataAttached,
    /// Backup data needs a storage type to be set first.
    NoBackupStorageType,
}

/// What a configuration holds, as mathematical values.
pub ghost struct ConfigView {
    pub rom: Seq<u8>,
    pub bios: Seq<u8>,
    pub skip_bios: bool,
    pub audio_frequency: u32,
    pub rtc: bool,
    pub backup_storage_type: Option<BackupStorageType>,
    pub backup_storage_data: Seq<u8>,
}

impl ConfigView {
    /// Backup data only ever stands beside a storage type.
    pub open spec fn wf(self) -> bool {
        self.backup_storage_data.len() > 0 ==> self.backup_storage_type is Some
    }
}

/// Whether `needle` occurs in `hay` starting at index `i`.
pub open spec fn occurs_at(hay: Seq<u8>, needle: Seq<u8>, i: int) -> bool {
    0 <= i && i + needle.len() <= hay.len() && hay.subrange(i, i + needle.len()) == needle
}

/// Whether `needle` occurs anywhere in `hay`.
pub open spec fn occurs_in(hay: Seq<u8>, needle: Seq<u8>) -> bool {
    exists|i: int| occurs_at(hay, needle, i)
}

pub open spec fn eeprom_mark() -> Seq<u8> {
    "EEPROM_V".spec_bytes()
}

pub open spec fn sram_mark() -> Seq<u8> {
    "SRAM_V".spec_bytes()
}

pub open spec fn sram_f_mark() -> Seq<u8> {
    "SRAM_F_V".spec_bytes()
}

pub open spec fn flash1m_mark() -> Seq<u8> {
    "FLASH1M_V".spec_bytes()
}

pub open spec fn flash_mark() -> Seq<u8> {
    "FLASH_V".spec_bytes()
}

pub open spec fn flash512_mark() -> Seq<u8> {
    "FLASH512_V".spec_bytes()
}

/// The storage type a ROM announces through the library marker strings that
/// games link in; the first match in this order wins.
pub open spec fn detected_storage(rom: Seq<u8>) -> Option<BackupStorageType> {
    if occurs_in(rom, eeprom_mark()) {
        Some(BackupStorageType::EEPROM_64K)
    } else if occurs_in(rom, sram_mark()) || occurs_in(rom, sram_f_mark()) {
        Some(BackupStorageType::SRAM)
    } else if occurs_in(rom, flash1m_mark()) {
        Some(BackupStorageType::Flash128)
    } else if occurs_in(rom, flash_mark()) || occurs_in(rom, flash512_mark()) {
        Some(BackupStorageType::Flash64)
    } else {
        None
    }
}

/// Whether `needle` occurs in `hay` at index `i`.
fn matches_at(hay: &[u8], needle: &[u8], i: usize) -> (r: bool)
    requires
        i + needle@.len() <= hay@.len(),
    ensures
        r == occurs_at(hay@, needle@, i as int),
{
    let n = hay.len();
    let mut j: usize = 0;
    while j < needle.len()
        invariant
            n == hay@.len(),
            j <= needle@.len(),
            i + needle@.len() <= hay@.len(),
            forall|k: int| 0 <= k < j ==> hay@[i + k] == needle@[k],
        decreases needle@.len() - j,
    {
        if hay[i + j] != needle[j] {
            assert(hay@.subrange(i as int, i + needle@.len())[j as int] != needle@[j as int]);
            return false;
        }
        j = j + 1;
    }
    assert(hay@.subrange(i as int, i + needle@.len()) =~= needle@);
    true
}

/// Whether `needle` occurs anywhere in `hay`.
pub fn contains_bytes(hay: &[u8], needle: &[u8]) -> (r: bool)
    ensures
        r == occurs_in(hay@, needle@),
{
    if needle.len() > hay.len() {
        return false;
    }
    let last = hay.len() - needle.len();
    let mut i: usize = 0;
    loop
        invariant
            i <= last,
            last + needle@.len() == hay@.len(),
            forall|k: int| 0 <= k < i ==> !occurs_at(hay@, needle@, k),
        decreases last - i,
    {
        if matches_at(hay, needle, i) {
            return true;
        }
        if i == last {
            assert forall|k: int| !occurs_at(hay@, needle@, k) by {
                if 0 <= k && k + needle@.len() <= hay@.len() {
                    assert(k <= last);
                }
            }
            return false;
        }
        i = i + 1;
    }
}

/// The storage type that the marker strings in `rom` announce.
pub fn detect_storage_type(rom: &Vec<u8>) -> (r: Option<BackupStorageType>)
    ensures
        r == detected_storage(rom@),
{
    if contains_bytes(rom.as_slice(), "EEPROM_V".as_bytes()) {
        Some(BackupStorageType::EEPROM_64K)
    } else if contains_bytes(rom.as_slice(), "SRAM_V".as_bytes()) || contains_bytes(rom.as_slice(), "SRAM_F_V".as_bytes()) {
        Some(BackupStorageType::SRAM)
    } else if contains_bytes(rom.as_slice(), "FLASH1M_V".as_bytes()) {
        Some(BackupStorageType::Flash128)
    } else if contains_bytes(rom.as_slice(), "FLASH_V".as_bytes()) || contains_bytes(rom.as_slice(), "FLASH512_V".as_bytes()) {
        Some(BackupStorageType::Flash64)
    } else {
        None
    }
}

/// The configuration an engine is reset with: the ROM and BIOS images, the
/// options, and the cartridge's backup storage.
#[derive(Debug)]
pub struct GbaConfig {
    rom: Vec<u8>,
    bios: Vec<u8>,
    skip_bios: bool,
    audio_frequency: u32,
    rtc: bool,
    backup_storage_type: Option<BackupStorageType>,
    backup_storage_data: Vec<u8>,
}

impl View for GbaConfig {
    type V = ConfigView;

    closed spec fn view(&self) -> ConfigView {
        ConfigView {
            rom: self.rom@,
            bios: self.bios@,
            skip_bios: self.skip_bios,
            audio_frequency: self.audio_frequency,
            rtc: self.rtc,
            backup_storage_type: self.backup_storage_type,
            backup_storage_data: self.backup_storage_data@,
        }
    }
}

impl GbaConfig {
    /// An empty configuration: no ROM, no BIOS, no backup storage, options off.
    pub fn new() -> (r: Self)
        ensures
            r@ == (ConfigView {
                rom: Seq::empty(),
                bios: Seq::empty(),
                skip_bios: false,
                audio_frequency: 0,
                rtc: false,
                backup_storage_type: None,
                backup_storage_data: Seq::empty(),
            }),
            r@.wf(),
    {
        GbaConfig {
            rom: Vec::new(),
            bios: Vec::new(),
            skip_bios: false,
            audio_frequency: 0,
            rtc: false,
            backup_storage_type: None,
            backup_storage_data: Vec::new(),
        }
    }

    pub fn rom(&self) -> (r: &[u8])
        ensures
            r@ == self@.rom,
    {
        self.rom.as_slice()
    }

    pub fn with_rom(&mut self, rom: Vec<u8>)
        ensures
            final(self)@ == (ConfigView { rom: rom@, ..old(self)@ }),
    {
        self.rom = rom;
    }

    pub fn bios(&self) -> (r: &[u8])
        ensures
            r@ == self@.bios,
    {
        self.bios.as_slice()
    }

    pub fn with_bios(&mut self, bios: Vec<u8>)
        ensures
            final(self)@ == (ConfigView { bios: bios@, ..old(self)@ }),
    {
        self.bios = bios;
    }

    /// Whether the engine starts the game directly instead of running the BIOS intro.
    pub fn skips_bios(&self) -> (r: bool)
        ensures
            r == self@.skip_bios,
    {
        self.skip_bios
    }

    pub fn skip_bios(&mut self, skip: bool)
        ensures
            final(self)@ == (ConfigView { skip_bios: skip, ..old(self)@ }),
    {
        self.skip_bios = skip;
    }

    pub fn audio_frequency(&self) -> (r: u32)
        ensures
            r == self@.audio_frequency,
    {
        self.audio_frequency
    }

    pub fn with_audio_frequency(&mut self, audio_frequency: u32)
        ensures
            final(self)@ == (ConfigView { audio_frequency, ..old(self)@ }),
    {
        self.audio_frequency = audio_frequency;
    }

    pub fn rtc(&self) -> (r: bool)
        ensures
            r == self@.rtc,
    {
        self.rtc
    }

    pub fn with_rtc(&mut self, rtc: bool)
        ensures
            final(self)@ == (ConfigView { rtc, ..old(self)@ }),
    {
        self.rtc = rtc;
    }

    pub fn backup_storage_type(&self) -> (r: Option<BackupStorageType>)
        ensures
            r == self@.backup_storage_type,
    {
        self.backup_storage_type
    }

    pub fn backup_storage_data(&self) -> (r: &[u8])
        ensures
            r@ == self@.backup_storage_data,
    {
        self.backup_storage_data.as_slice()
    }

    /// Sets the storage type; refused once backup data is attached.
    pub fn with_backup_storage_type(&mut self, backup_storage_type: BackupStorageType) -> (r:
        Result<(), ConfigError>)
        ensures
            old(self)@.backup_storage_data.len() == 0 ==> r is Ok && final(self)@ == (ConfigView {
                backup_storage_type: Some(backup_storage_type),
                ..old(self)@
            }),
            old(self)@.backup_storage_data.len() != 0 ==> r == Err::<(), ConfigError>(
                ConfigError::BackupDataAttached,
            ) && final(self)@ == old(self)@,
            old(self)@.wf() ==> final(self)@.wf(),
    {
        if self.backup_storage_data.len() != 0 {
            return Err(ConfigError::BackupDataAttached);
        }
        self.backup_storage_type = Some(backup_storage_type);
        Ok(())
    }

    /// Attaches backup data; refused while no storage type is set.
    pub fn with_backup_storage_data(&mut self, data: Vec<u8>) -> (r: Result<(), ConfigError>)
        ensures
            old(self)@.backup_storage_type is Some ==> r is Ok && final(self)@ == (ConfigView {
                backup_storage_data: data@,
                ..old(self)@
            }),
            old(self)@.backup_storage_type is None ==> r == Err::<(), ConfigError>(
                ConfigError::NoBackupStorageType,
            ) && final(self)@ == old(self)@,
            old(self)@.wf() ==> final(self)@.wf(),
    {
        if self.backup_storage_type.is_none() {
            return Err(ConfigError::NoBackupStorageType);
        }
        self.backup_storage_data = data;
        Ok(())
    }

    /// Removes the storage type and any backup data.
    pub fn without_backup_storage(&mut self)
        ensures
            final(self)@ == (ConfigView {
                backup_storage_type: None,
                backup_storage_data: Seq::empty(),
                ..old(self)@
            }),
            final(self)@.wf(),
    {
        self.backup_storage_type = None;
        self.backup_storage_data = Vec::new();
    }

    /// Sets the storage type to the one that the ROM's marker strings announce
    /// (none if it has none); refused once backup data is attached.
    pub fn detect_backup_storage(&mut self) -> (r: Result<(), ConfigError>)
        ensures
            old(self)@.backup_storage_data.len() == 0 ==> r is Ok && final(self)@ == (ConfigView {
                backup_storage_type: detected_storage(old(self)@.rom),
                ..old(self)@
            }),
            old(self)@.backup_storage_data.len() != 0 ==> r == Err::<(), ConfigError>(
                ConfigError::BackupDataAttached,
            ) && final(self)@ == old(self)@,
            old(self)@.wf() ==> final(self)@.wf(),
    {
        if self.backup_storage_data.len() != 0 {
            return Err(ConfigError::BackupDataAttached);
        }
        self.backup_storage_type = detect_storage_type(&self.rom);
        Ok(())
    }
}

} // verus!
