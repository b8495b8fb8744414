//! Launch options of the emulator and the command line they are taken from.

use vstd::prelude::*;

verus! {

/// What a run of the emulator is configured with. A path that is `None` was
/// not given.
pub struct cen64_options {
    pub ddipl_path: Option<String>,
    pub ddrom_path: Option<String>,
    pub pifrom_path: Option<String>,
    pub cart_path: Option<String>,
    pub debugger_addr: Option<String>,
    pub eeprom_path: Option<String>,
    pub eeprom_size: usize,
    pub sram_path: Option<String>,
    pub sram_size: usize,
    pub flashram_path: Option<String>,
    pub is_viewer_output: i32,
    pub enable_debugger: bool,
    pub enable_profiling: bool,
    pub multithread: bool,
    pub no_audio: bool,
    pub no_video: bool,
}

/// The options of a run before anything was configured: no path, no size,
/// every switch off.
pub open spec fn is_default_options(o: cen64_options) -> bool {
    &&& o.ddipl_path is None
    &&& o.ddrom_path is None
    &&& o.pifrom_path is None
    &&& o.cart_path is None
    &&& o.debugger_addr is None
    &&& o.eeprom_path is None
    &&& o.eeprom_size == 0
    &&& o.sram_path is None
    &&& o.sram_size == 0
    &&& o.flashram_path is None
    &&& o.is_viewer_output == 0
    &&& !o.enable_debugger
    &&& !o.enable_profiling
    &&& !o.multithread
    &&& !o.no_audio
    &&& !o.no_video
}

impl Default for cen64_options {
    fn default() -> (o: Self)
        ensures
            is_default_options(o),
    {
        cen64_options {
            ddipl_path: None,
            ddrom_path: None,
            pifrom_path: None,
            cart_path: None,
            debugger_addr: None,
            eeprom_path: None,
            eeprom_size: 0,
            sram_path: None,
            sram_size: 0,
            flashram_path: None,
            is_viewer_output: 0,
            enable_debugger: false,
            enable_profiling: false,
            multithread: false,
            no_audio: false,
            no_video: false,
        }
    }
}

/// A save memory named on the command line, with the file that backs it.
pub enum SaveType {
    /// 256 kbit SRAM
    Sram { path: String },
    /// 256 kbit SRAM (explicit)
    Sram256k { path: String },
    /// 768 kbit SRAM
    Sram768k { path: String },
    /// 1 mbit SRAM
    Sram1m { path: String },
    /// 1 mbit FlashRAM
    Flash { path: String },
}

/// The command line of the emulator, as plain values: paths as text and the
/// debugger's address in its textual form.
pub struct Cen64Args {
    /// Starts the debugger on interface:port
    pub debug: bool,
    pub debugger_address: String,
    /// Profile the ROM (cpu-side)
    pub profile: bool,
    /// Run in a threaded (but quasi-accurate) mode
    pub multithread: bool,
    /// Path to the 64DD IPL ROM
    pub ddipl: Option<String>,
    /// Path to the 64DD disk ROM
    pub ddrom: Option<String>,
    /// Run emulator without user-interface components
    pub headless: bool,
    /// Run emulator without audio
    pub noaudio: bool,
    /// Run emulator without video
    pub novideo: bool,
    /// Path to 4 kbit EEPROM save
    pub eep4k: Option<String>,
    /// Path to 16 kbit EEPROM save
    pub eep16k: Option<String>,
    /// Save memory named on the command line
    pub sram: Option<SaveType>,
    /// Show IS Viewer 64 output
    pub is_viewer: bool,
    /// Controller configuration (e.g., num=1,pak=rumble)
    pub controller: Vec<String>,
    /// Path to the PIF IPL ROM
    pub pif_rom: String,
    /// Path to the Cartridge ROM
    pub cart_rom: Option<String>,
}

/// The EEPROM save the command line names, with its size: a 4 kbit file
/// (0x200 bytes) where one is given, otherwise a 16 kbit file (0x800 bytes)
/// where one is given; `None` where neither is.
pub open spec fn eeprom_from_args(a: Cen64Args) -> Option<(String, usize)> {
    match a.eep4k {
        Some(p) => Some((p, 0x200usize)),
        None => match a.eep16k {
            Some(p) => Some((p, 0x800usize)),
            None => None,
        },
    }
}

/// The SRAM save the save-memory subcommand names, with its size: 256 kbit
/// (0x8000 bytes) for `sram` and `sram256k`, 768 kbit (0x18000) for
/// `sram768k`, 1 mbit (0x20000) for `sram1m`; `None` for `flash` or no
/// subcommand.
pub open spec fn sram_from_args(a: Cen64Args) -> Option<(String, usize)> {
    match a.sram {
        Some(SaveType::Sram { path }) => Some((path, 0x8000usize)),
        Some(SaveType::Sram256k { path }) => Some((path, 0x8000usize)),
        Some(SaveType::Sram768k { path }) => Some((path, 0x18000usize)),
        Some(SaveType::Sram1m { path }) => Some((path, 0x20000usize)),
        Some(SaveType::Flash { .. }) => None,
        None => None,
    }
}

/// The FlashRAM save the `flash` subcommand names.
pub open spec fn flashram_from_args(a: Cen64Args) -> Option<String> {
    match a.sram {
        Some(SaveType::Flash { path }) => Some(path),
        _ => None,
    }
}

/// The options of a run once the command line was read. The 64DD IPL and disk
/// ROMs, the PIF ROM and the cartridge are the ones it names; profiling, the
/// IS-Viewer output and the threading, audio and video switches are its
/// flags; the EEPROM, SRAM and FlashRAM saves it names replace the configured
/// ones, with the size of their kind. Saves it does not name stay as
/// configured. The debugger stays as configured: a run cannot start one, so
/// `--debug` and `--debugger-address` are not read, and neither are
/// `--headless` and `--controller`, which no option of a run receives.
pub open spec fn options_with_args(o: cen64_options, a: Cen64Args) -> cen64_options {
    cen64_options {
        ddipl_path: a.ddipl,
        ddrom_path: a.ddrom,
        pifrom_path: Some(a.pif_rom),
        cart_path: a.cart_rom,
        debugger_addr: o.debugger_addr,
        eeprom_path: match eeprom_from_args(a) {
            Some((p, _)) => Some(p),
            None => o.eeprom_path,
        },
        eeprom_size: match eeprom_from_args(a) {
            Some((_, n)) => n,
            None => o.eeprom_size,
        },
        sram_path: match sram_from_args(a) {
            Some((p, _)) => Some(p),
            None => o.sram_path,
        },
        sram_size: match sram_from_args(a) {
            Some((_, n)) => n,
            None => o.sram_size,
        },
        flashram_path: match flashram_from_args(a) {
            Some(p) => Some(p),
            None => o.flashram_path,
        },
        is_viewer_output: if a.is_viewer { 1i32 } else { 0i32 },
        enable_debugger: o.enable_debugger,
        enable_profiling: a.profile,
        multithread: a.multithread,
        no_audio: a.noaudio,
        no_video: a.novideo,
    }
}

/// Takes the options the command line gives. A cartridge must have been
/// named.
pub fn apply_args(o: cen64_options, a: Cen64Args) -> (r: cen64_options)
    requires
        a.cart_rom is Some,
    ensures
        r == options_with_args(o, a),
{
    let Cen64Args {
        debug: _,
        debugger_address: _,
        profile,
        multithread,
        ddipl,
        ddrom,
        headless: _,
        noaudio,
        novideo,
        eep4k,
        eep16k,
        sram,
        is_viewer,
        controller: _,
        pif_rom,
        cart_rom,
    } = a;
    let (eeprom_path, eeprom_size): (Option<String>, usize) = match eep4k {
        Some(p) => (Some(p), 0x200),
        None => match eep16k {
            Some(p) => (Some(p), 0x800),
            None => (o.eeprom_path, o.eeprom_size),
        },
    };
    let (sram_path, sram_size, flashram_path): (Option<String>, usize, Option<String>) = match sram {
        Some(SaveType::Sram { path }) => (Some(path), 0x8000, o.flashram_path),
        Some(SaveType::Sram256k { path }) => (Some(path), 0x8000, o.flashram_path),
        Some(SaveType::Sram768k { path }) => (Some(path), 0x18000, o.flashram_path),
        Some(SaveType::Sram1m { path }) => (Some(path), 0x20000, o.flashram_path),
        Some(SaveType::Flash { path }) => (o.sram_path, o.sram_size, Some(path)),
        None => (o.sram_path, o.sram_size, o.flashram_path),
    };
    cen64_options {
        ddipl_path: ddipl,
        ddrom_path: ddrom,
        pifrom_path: Some(pif_rom),
        cart_path: cart_rom,
        debugger_addr: o.debugger_addr,
        eeprom_path,
        eeprom_size,
        sram_path,
        sram_size,
        flashram_path,
        is_viewer_output: if is_viewer { 1 } else { 0 },
        enable_debugger: o.enable_debugger,
        enable_profiling: profile,
        multithread,
        no_audio: noaudio,
        no_video: novideo,
    }
}

/// Options before anything was configured hold no path, no size and no switch.
pub proof fn law_default_options_are_empty(o: cen64_options)
    requires
        is_default_options(o),
    ensures
        o.ddipl_path is None && o.ddrom_path is None && o.pifrom_path is None && o.cart_path is None,
        o.debugger_addr is None && o.eeprom_path is None && o.sram_path is None && o.flashram_path is None,
        o.eeprom_size == 0 && o.sram_size == 0 && o.is_viewer_output == 0,
        !o.enable_debugger && !o.enable_profiling && !o.multithread && !o.no_audio && !o.no_video,
{
}

/// What the command line sets. The ROM paths are the ones it names. A 4 kbit
/// EEPROM file it names is opened at 0x200 bytes, else a 16 kbit one at 0x800
/// bytes; `sram` and `sram256k` name a 0x8000-byte SRAM file, `sram768k` a
/// 0x18000-byte one and `sram1m` a 0x20000-byte one; `flash` names the
/// FlashRAM file. Saves it does not name, and the debugger, stay as configured.
/// The switches are its flags, the IS-Viewer output 1 where it asks for it and
/// 0 otherwise.
pub proof fn law_command_line_options(o: cen64_options, a: Cen64Args)
    ensures
        options_with_args(o, a).ddipl_path == a.ddipl,
        options_with_args(o, a).ddrom_path == a.ddrom,
        options_with_args(o, a).pifrom_path == Some(a.pif_rom),
        options_with_args(o, a).cart_path == a.cart_rom,
        options_with_args(o, a).debugger_addr == o.debugger_addr,
        options_with_args(o, a).enable_debugger == o.enable_debugger,
        options_with_args(o, a).enable_profiling == a.profile,
        options_with_args(o, a).is_viewer_output == (if a.is_viewer { 1i32 } else { 0i32 }),
        options_with_args(o, a).multithread == a.multithread,
        options_with_args(o, a).no_audio == a.noaudio,
        options_with_args(o, a).no_video == a.novideo,
        a.eep4k matches Some(p) ==> options_with_args(o, a).eeprom_path == Some(p)
            && options_with_args(o, a).eeprom_size == 0x200,
        a.eep4k is None ==> (a.eep16k matches Some(p) ==> options_with_args(o, a).eeprom_path == Some(p)
            && options_with_args(o, a).eeprom_size == 0x800),
        a.eep4k is None && a.eep16k is None ==> options_with_args(o, a).eeprom_path == o.eeprom_path
            && options_with_args(o, a).eeprom_size == o.eeprom_size,
        a.sram matches Some(SaveType::Sram { path }) ==> options_with_args(o, a).sram_path == Some(path)
            && options_with_args(o, a).sram_size == 0x8000,
        a.sram matches Some(SaveType::Sram256k { path }) ==> options_with_args(o, a).sram_path == Some(path)
            && options_with_args(o, a).sram_size == 0x8000,
        a.sram matches Some(SaveType::Sram768k { path }) ==> options_with_args(o, a).sram_path == Some(path)
            && options_with_args(o, a).sram_size == 0x18000,
        a.sram matches Some(SaveType::Sram1m { path }) ==> options_with_args(o, a).sram_path == Some(path)
            && options_with_args(o, a).sram_size == 0x20000,
        a.sram matches Some(SaveType::Flash { path }) ==> options_with_args(o, a).flashram_path == Some(path)
            && options_with_args(o, a).sram_path == o.sram_path && options_with_args(o, a).sram_size == o.sram_size,
        !(a.sram matches Some(SaveType::Flash { .. })) ==> options_with_args(o, a).flashram_path == o.flashram_path,
        a.sram is None ==> options_with_args(o, a).sram_path == o.sram_path
            && options_with_args(o, a).sram_size == o.sram_size,
{
}

} // verus!
