//! Save memories of cartridges and how a run opens the one its cartridge uses.

use vstd::prelude::*;
use crate::options::cen64_options;
use crate::pi::FLASHRAM_SIZE;

verus! {

/// The kind of save memory that the cartridge database lists for a cartridge.
#[derive(Clone, Copy, Debug, PartialEq, Eq, Structural)]
pub enum cart_db_save_type {
    CART_DB_SAVE_TYPE_EEPROM_4KBIT,
    CART_DB_SAVE_TYPE_EEPROM_16KBIT,
    CART_DB_SAVE_TYPE_FLASH_1MBIT,
    CART_DB_SAVE_TYPE_NONE,
    CART_DB_SAVE_TYPE_SRAM_256KBIT,
    CART_DB_SAVE_TYPE_SRAM_768KBIT,
    CART_DB_SAVE_TYPE_SRAM_1MBIT,
}

/// The save file of a run that backs a kind of save memory.
#[derive(Clone, Copy, Debug, PartialEq, Eq, Structural)]
pub enum SaveSlot {
    Eeprom,
    Sram,
    Flashram,
}

/// The slot that a kind of save memory is kept in; `None` for a cartridge
/// without save memory.
pub open spec fn slot_of(t: cart_db_save_type) -> Option<SaveSlot> {
    match t {
        cart_db_save_type::CART_DB_SAVE_TYPE_EEPROM_4KBIT => Some(SaveSlot::Eeprom),
        cart_db_save_type::CART_DB_SAVE_TYPE_EEPROM_16KBIT => Some(SaveSlot::Eeprom),
        cart_db_save_type::CART_DB_SAVE_TYPE_FLASH_1MBIT => Some(SaveSlot::Flashram),
        cart_db_save_type::CART_DB_SAVE_TYPE_NONE => None,
        cart_db_save_type::CART_DB_SAVE_TYPE_SRAM_256KBIT => Some(SaveSlot::Sram),
        cart_db_save_type::CART_DB_SAVE_TYPE_SRAM_768KBIT => Some(SaveSlot::Sram),
        cart_db_save_type::CART_DB_SAVE_TYPE_SRAM_1MBIT => Some(SaveSlot::Sram),
    }
}

/// Size in bytes of a kind of save memory: 4 kbit, 16 kbit, 1 mbit of flash,
/// 256 kbit, 768 kbit and 1 mbit of SRAM.
pub open spec fn save_bytes(t: cart_db_save_type) -> nat {
    match t {
        cart_db_save_type::CART_DB_SAVE_TYPE_EEPROM_4KBIT => 4096nat / 8,
        cart_db_save_type::CART_DB_SAVE_TYPE_EEPROM_16KBIT => 16384nat / 8,
        cart_db_save_type::CART_DB_SAVE_TYPE_FLASH_1MBIT => FLASHRAM_SIZE as nat,
        cart_db_save_type::CART_DB_SAVE_TYPE_NONE => 0nat,
        cart_db_save_type::CART_DB_SAVE_TYPE_SRAM_256KBIT => 262144nat / 8,
        cart_db_save_type::CART_DB_SAVE_TYPE_SRAM_768KBIT => 786432nat / 8,
        cart_db_save_type::CART_DB_SAVE_TYPE_SRAM_1MBIT => 1048576nat / 8,
    }
}

/// A warning about the save file that a cartridge needs.
#[derive(Clone, Copy, Debug, PartialEq, Eq, Structural)]
pub enum SaveWarning {
    /// No file was given for the kind of save memory the cartridge uses.
    Missing(cart_db_save_type),
    /// A file was given, but with another size than the cartridge uses.
    WrongSize(cart_db_save_type),
}

impl SaveWarning {
    /// The line printed for the warning.
    pub fn text(&self) -> (r: &'static str)
        ensures
            r@ == warning_text(*self)@,
    {
        match *self {
            SaveWarning::Missing(t) => match t {
                cart_db_save_type::CART_DB_SAVE_TYPE_EEPROM_4KBIT =>
                    "Warning: cart saves to 4kbit EEPROM, but none specified (see -eep4k)",
                cart_db_save_type::CART_DB_SAVE_TYPE_EEPROM_16KBIT =>
                    "Warning: cart saves to 16kbit EEPROM, but none specified (see -eep16k)",
                cart_db_save_type::CART_DB_SAVE_TYPE_FLASH_1MBIT =>
                    "Warning: cart saves to Flash, but none specified (see -flash)",
                cart_db_save_type::CART_DB_SAVE_TYPE_SRAM_256KBIT =>
                    "Warning: cart saves to 256kbit SRAM, but none specified (see -sram256k)",
                cart_db_save_type::CART_DB_SAVE_TYPE_SRAM_768KBIT =>
                    "Warning: cart saves to 768kbit SRAM, but none specified (see -sram768k)",
                cart_db_save_type::CART_DB_SAVE_TYPE_SRAM_1MBIT =>
                    "Warning: cart saves to 1mbit SRAM, but none specified (see -sram1m)",
                cart_db_save_type::CART_DB_SAVE_TYPE_NONE => "",
            },
            SaveWarning::WrongSize(t) => match t {
                cart_db_save_type::CART_DB_SAVE_TYPE_EEPROM_4KBIT =>
                    "Warning: cart saves to 4kbit EEPROM, but different size specified (see -eep4k)",
                cart_db_save_type::CART_DB_SAVE_TYPE_EEPROM_16KBIT =>
                    "Warning: cart saves to 16kbit EEPROM, but different size specified (see -eep16k)",
                cart_db_save_type::CART_DB_SAVE_TYPE_SRAM_256KBIT =>
                    "Warning: cart saves to 256kbit SRAM, but different size specified (see -sram256k)",
                cart_db_save_type::CART_DB_SAVE_TYPE_SRAM_768KBIT =>
                    "Warning: cart saves to 768kbit SRAM, but different size specified (see -sram768k)",
                cart_db_save_type::CART_DB_SAVE_TYPE_SRAM_1MBIT =>
                    "Warning: cart saves to 1mbit SRAM, but different size specified (see -sram1m)",
                cart_db_save_type::CART_DB_SAVE_TYPE_FLASH_1MBIT => "",
                cart_db_save_type::CART_DB_SAVE_TYPE_NONE => "",
            },
        }
    }
}

/// The text of each warning.
pub open spec fn warning_text(w: SaveWarning) -> &'static str {
    match w {
        SaveWarning::Missing(t) => match t {
            cart_db_save_type::CART_DB_SAVE_TYPE_EEPROM_4KBIT =>
                "Warning: cart saves to 4kbit EEPROM, but none specified (see -eep4k)",
            cart_db_save_type::CART_DB_SAVE_TYPE_EEPROM_16KBIT =>
                "Warning: cart saves to 16kbit EEPROM, but none specified (see -eep16k)",
            cart_db_save_type::CART_DB_SAVE_TYPE_FLASH_1MBIT =>
                "Warning: cart saves to Flash, but none specified (see -flash)",
            cart_db_save_type::CART_DB_SAVE_TYPE_SRAM_256KBIT =>
                "Warning: cart saves to 256kbit SRAM, but none specified (see -sram256k)",
            cart_db_save_type::CART_DB_SAVE_TYPE_SRAM_768KBIT =>
                "Warning: cart saves to 768kbit SRAM, but none specified (see -sram768k)",
            cart_db_save_type::CART_DB_SAVE_TYPE_SRAM_1MBIT =>
                "Warning: cart saves to 1mbit SRAM, but none specified (see -sram1m)",
            cart_db_save_type::CART_DB_SAVE_TYPE_NONE => "",
        },
        SaveWarning::WrongSize(t) => match t {
            cart_db_save_type::CART_DB_SAVE_TYPE_EEPROM_4KBIT =>
                "Warning: cart saves to 4kbit EEPROM, but different size specified (see -eep4k)",
            cart_db_save_type::CART_DB_SAVE_TYPE_EEPROM_16KBIT =>
                "Warning: cart saves to 16kbit EEPROM, but different size specified (see -eep16k)",
            cart_db_save_type::CART_DB_SAVE_TYPE_SRAM_256KBIT =>
                "Warning: cart saves to 256kbit SRAM, but different size specified (see -sram256k)",
            cart_db_save_type::CART_DB_SAVE_TYPE_SRAM_768KBIT =>
                "Warning: cart saves to 768kbit SRAM, but different size specified (see -sram768k)",
            cart_db_save_type::CART_DB_SAVE_TYPE_SRAM_1MBIT =>
                "Warning: cart saves to 1mbit SRAM, but different size specified (see -sram1m)",
            cart_db_save_type::CART_DB_SAVE_TYPE_FLASH_1MBIT => "",
            cart_db_save_type::CART_DB_SAVE_TYPE_NONE => "",
        },
    }
}

/// How to open a save file: which one, whether with the path the options give
/// (or with none, for a file that lives in memory only), its size, and whether
/// the caller wants to learn that the file was newly created.
#[derive(Clone, Copy, Debug, PartialEq, Eq, Structural)]
pub struct SaveOpen {
    pub slot: SaveSlot,
    pub with_path: bool,
    pub size: usize,
    pub report_created: bool,
}

/// How a run opens the save memory of its cartridge, and the warning it prints
/// first, if any.
#[derive(Clone, Copy, Debug, PartialEq, Eq, Structural)]
pub struct CartSavePlan {
    pub warning: Option<SaveWarning>,
    pub open: SaveOpen,
}

/// Whether the options name a file for a slot.
pub open spec fn path_given(o: cen64_options, slot: SaveSlot) -> bool {
    match slot {
        SaveSlot::Eeprom => o.eeprom_path is Some,
        SaveSlot::Sram => o.sram_path is Some,
        SaveSlot::Flashram => o.flashram_path is Some,
    }
}

/// The size the options give for a slot. FlashRAM has no configurable size.
pub open spec fn configured_size(o: cen64_options, slot: SaveSlot) -> nat {
    match slot {
        SaveSlot::Eeprom => o.eeprom_size as nat,
        SaveSlot::Sram => o.sram_size as nat,
        SaveSlot::Flashram => FLASHRAM_SIZE as nat,
    }
}

/// The save file a cartridge with save memory `t` gets: the slot of its kind,
/// at the size of its kind, with the configured path if there is one. Without
/// a path the run warns that none was given; with one whose size differs from
/// the cartridge's (FlashRAM aside) it warns of the size. FlashRAM is the one
/// kind whose creation is reported, so that a new one can be erased.
pub open spec fn cart_save_plan(t: cart_db_save_type, o: cen64_options) -> Option<CartSavePlan> {
    match slot_of(t) {
        None => None,
        Some(slot) => Some(CartSavePlan {
            warning: if !path_given(o, slot) {
                Some(SaveWarning::Missing(t))
            } else if slot != SaveSlot::Flashram && configured_size(o, slot) != save_bytes(t) {
                Some(SaveWarning::WrongSize(t))
            } else {
                None
            },
            open: SaveOpen {
                slot,
                with_path: path_given(o, slot),
                size: save_bytes(t) as usize,
                report_created: slot == SaveSlot::Flashram,
            },
        }),
    }
}

/// Decides how to open the save memory of a cartridge.
pub fn plan_cart_save(t: cart_db_save_type, o: &cen64_options) -> (r: Option<CartSavePlan>)
    ensures
        r == cart_save_plan(t, *o),
{
    let (slot, size): (SaveSlot, usize) = match t {
        cart_db_save_type::CART_DB_SAVE_TYPE_EEPROM_4KBIT => (SaveSlot::Eeprom, 0x200),
        cart_db_save_type::CART_DB_SAVE_TYPE_EEPROM_16KBIT => (SaveSlot::Eeprom, 0x800),
        cart_db_save_type::CART_DB_SAVE_TYPE_FLASH_1MBIT => (SaveSlot::Flashram, FLASHRAM_SIZE as usize),
        cart_db_save_type::CART_DB_SAVE_TYPE_SRAM_256KBIT => (SaveSlot::Sram, 0x8000),
        cart_db_save_type::CART_DB_SAVE_TYPE_SRAM_768KBIT => (SaveSlot::Sram, 0x18000),
        cart_db_save_type::CART_DB_SAVE_TYPE_SRAM_1MBIT => (SaveSlot::Sram, 0x20000),
        cart_db_save_type::CART_DB_SAVE_TYPE_NONE => { return None; },
    };
    let (given, configured): (bool, usize) = match slot {
        SaveSlot::Eeprom => (o.eeprom_path.is_some(), o.eeprom_size),
        SaveSlot::Sram => (o.sram_path.is_some(), o.sram_size),
        SaveSlot::Flashram => (o.flashram_path.is_some(), size),
    };
    let flash = match slot {
        SaveSlot::Flashram => true,
        _ => false,
    };
    let warning = if !given {
        Some(SaveWarning::Missing(t))
    } else if !flash && configured != size {
        Some(SaveWarning::WrongSize(t))
    } else {
        None
    };
    Some(CartSavePlan {
        warning,
        open: SaveOpen { slot, with_path: given, size, report_created: flash },
    })
}

/// The cartridge database's identifier of the Japanese Kirby 64.
pub open spec fn is_kirby_jp_id(rom_id: Seq<u8>) -> bool {
    rom_id == seq![0x4Eu8, 0x4Bu8, 0x34u8]
}

/// The save memory a cartridge really uses. The Japanese Kirby 64 ("NK4") uses
/// 256 kbit SRAM in its revisions before 2 (region byte 'J' at offset 0x3e of
/// the header, revision byte at 0x3f); every other cartridge uses what the
/// database lists.
pub open spec fn actual_save_type(rom_id: Seq<u8>, header: Seq<u8>, listed: cart_db_save_type) -> cart_db_save_type {
    if is_kirby_jp_id(rom_id) && header[0x3e] == 0x4Au8 && header[0x3f] < 2 {
        cart_db_save_type::CART_DB_SAVE_TYPE_SRAM_256KBIT
    } else {
        listed
    }
}

/// Corrects the save memory the database lists for a cartridge, given the
/// cartridge's identifier and the first bytes of its ROM.
pub fn effective_save_type(rom_id: &[u8], header: &[u8], listed: cart_db_save_type) -> (r: cart_db_save_type)
    requires
        is_kirby_jp_id(rom_id@) ==> header@.len() >= 0x40,
    ensures
        r == actual_save_type(rom_id@, header@, listed),
{
    let kirby = rom_id.len() == 3 && rom_id[0] == 0x4Eu8 && rom_id[1] == 0x4Bu8 && rom_id[2] == 0x34u8;
    proof {
        if kirby {
            assert(rom_id@ =~= seq![0x4Eu8, 0x4Bu8, 0x34u8]);
        }
    }
    if kirby && header[0x3e] == 0x4Au8 && header[0x3f] < 2 {
        cart_db_save_type::CART_DB_SAVE_TYPE_SRAM_256KBIT
    } else {
        listed
    }
}

/// How a cartridge's save memory is opened. A cartridge without save memory
/// opens nothing; every other kind opens one file, of the size of its kind
/// (4 and 16 kbit of EEPROM, 1 mbit of FlashRAM, 256 kbit, 768 kbit and 1 mbit
/// of SRAM). The file is opened with its path exactly when the options give
/// one for its slot, whatever size they give; the run warns that none was
/// given exactly when none was, and warns of the size exactly when a path was
/// given with another size than the kind's (FlashRAM has no size to compare).
/// Only FlashRAM reports that it was created.
pub proof fn law_cart_save_plan(t: cart_db_save_type, o: cen64_options)
    ensures
        cart_save_plan(t, o) is None <==> t == cart_db_save_type::CART_DB_SAVE_TYPE_NONE,
        t == cart_db_save_type::CART_DB_SAVE_TYPE_EEPROM_4KBIT ==> (cart_save_plan(t, o) matches Some(p)
            && p.open.slot == SaveSlot::Eeprom && p.open.size == 4 * 1024 / 8),
        t == cart_db_save_type::CART_DB_SAVE_TYPE_EEPROM_16KBIT ==> (cart_save_plan(t, o) matches Some(p)
            && p.open.slot == SaveSlot::Eeprom && p.open.size == 16 * 1024 / 8),
        t == cart_db_save_type::CART_DB_SAVE_TYPE_FLASH_1MBIT ==> (cart_save_plan(t, o) matches Some(p)
            && p.open.slot == SaveSlot::Flashram && p.open.size == 1024 * 1024 / 8),
        t == cart_db_save_type::CART_DB_SAVE_TYPE_SRAM_256KBIT ==> (cart_save_plan(t, o) matches Some(p)
            && p.open.slot == SaveSlot::Sram && p.open.size == 256 * 1024 / 8),
        t == cart_db_save_type::CART_DB_SAVE_TYPE_SRAM_768KBIT ==> (cart_save_plan(t, o) matches Some(p)
            && p.open.slot == SaveSlot::Sram && p.open.size == 768 * 1024 / 8),
        t == cart_db_save_type::CART_DB_SAVE_TYPE_SRAM_1MBIT ==> (cart_save_plan(t, o) matches Some(p)
            && p.open.slot == SaveSlot::Sram && p.open.size == 1024 * 1024 / 8),
        cart_save_plan(t, o) matches Some(p) ==> {
            let given = match p.open.slot {
                SaveSlot::Eeprom => o.eeprom_path is Some,
                SaveSlot::Sram => o.sram_path is Some,
                SaveSlot::Flashram => o.flashram_path is Some,
            };
            let other_size = match p.open.slot {
                SaveSlot::Eeprom => o.eeprom_size != p.open.size,
                SaveSlot::Sram => o.sram_size != p.open.size,
                SaveSlot::Flashram => false,
            };
            &&& p.open.with_path == given
            &&& (p.warning == Some(SaveWarning::Missing(t))) == !given
            &&& (p.warning == Some(SaveWarning::WrongSize(t))) == (given && other_size)
            &&& (p.warning is None) == (given && !other_size)
            &&& p.open.report_created == (p.open.slot == SaveSlot::Flashram)
        },
{
}

/// Only the cartridge whose database identifier is exactly "NK4" (the Japanese
/// Kirby 64) has its save memory corrected, and only where its header has
/// region 'J' and a revision before 2, to 256 kbit SRAM; every other cartridge
/// uses what the database lists, whatever its header holds.
pub proof fn law_only_early_japanese_kirby_is_corrected(rom_id: Seq<u8>, header: Seq<u8>, listed: cart_db_save_type)
    ensures
        !(rom_id.len() == 3 && rom_id[0] == 0x4Eu8 && rom_id[1] == 0x4Bu8 && rom_id[2] == 0x34u8)
            ==> actual_save_type(rom_id, header, listed) == listed,
        (rom_id.len() == 3 && rom_id[0] == 0x4Eu8 && rom_id[1] == 0x4Bu8 && rom_id[2] == 0x34u8)
            ==> actual_save_type(rom_id, header, listed) == (if header[0x3e] == 0x4Au8 && header[0x3f] < 2 {
                cart_db_save_type::CART_DB_SAVE_TYPE_SRAM_256KBIT
            } else {
                listed
            }),
{
    if rom_id.len() == 3 && rom_id[0] == 0x4Eu8 && rom_id[1] == 0x4Bu8 && rom_id[2] == 0x34u8 {
        assert(rom_id =~= seq![0x4Eu8, 0x4Bu8, 0x34u8]);
    }
}

/// The warnings a run prints about the cartridge's save file: for each kind,
/// that none was specified, and (FlashRAM aside) that another size was.
pub proof fn law_warning_texts()
    ensures
        warning_text(SaveWarning::Missing(cart_db_save_type::CART_DB_SAVE_TYPE_EEPROM_4KBIT))@
            == "Warning: cart saves to 4kbit EEPROM, but none specified (see -eep4k)"@,
        warning_text(SaveWarning::WrongSize(cart_db_save_type::CART_DB_SAVE_TYPE_EEPROM_4KBIT))@
            == "Warning: cart saves to 4kbit EEPROM, but different size specified (see -eep4k)"@,
        warning_text(SaveWarning::Missing(cart_db_save_type::CART_DB_SAVE_TYPE_EEPROM_16KBIT))@
            == "Warning: cart saves to 16kbit EEPROM, but none specified (see -eep16k)"@,
        warning_text(SaveWarning::WrongSize(cart_db_save_type::CART_DB_SAVE_TYPE_EEPROM_16KBIT))@
            == "Warning: cart saves to 16kbit EEPROM, but different size specified (see -eep16k)"@,
        warning_text(SaveWarning::Missing(cart_db_save_type::CART_DB_SAVE_TYPE_SRAM_256KBIT))@
            == "Warning: cart saves to 256kbit SRAM, but none specified (see -sram256k)"@,
        warning_text(SaveWarning::WrongSize(cart_db_save_type::CART_DB_SAVE_TYPE_SRAM_256KBIT))@
            == "Warning: cart saves to 256kbit SRAM, but different size specified (see -sram256k)"@,
        warning_text(SaveWarning::Missing(cart_db_save_type::CART_DB_SAVE_TYPE_SRAM_768KBIT))@
            == "Warning: cart saves to 768kbit SRAM, but none specified (see -sram768k)"@,
        warning_text(SaveWarning::WrongSize(cart_db_save_type::CART_DB_SAVE_TYPE_SRAM_768KBIT))@
            == "Warning: cart saves to 768kbit SRAM, but different size specified (see -sram768k)"@,
        warning_text(SaveWarning::Missing(cart_db_save_type::CART_DB_SAVE_TYPE_SRAM_1MBIT))@
            == "Warning: cart saves to 1mbit SRAM, but none specified (see -sram1m)"@,
        warning_text(SaveWarning::WrongSize(cart_db_save_type::CART_DB_SAVE_TYPE_SRAM_1MBIT))@
            == "Warning: cart saves to 1mbit SRAM, but different size specified (see -sram1m)"@,
        warning_text(SaveWarning::Missing(cart_db_save_type::CART_DB_SAVE_TYPE_FLASH_1MBIT))@
            == "Warning: cart saves to Flash, but none specified (see -flash)"@,
{
}

} // verus!
