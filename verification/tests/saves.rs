use cen64_rs::cart_db::{
    cart_db_save_type, effective_save_type, plan_cart_save, CartSavePlan, SaveOpen, SaveSlot,
    SaveWarning,
};
use cen64_rs::options::{apply_args, cen64_options, Cen64Args, SaveType};

fn options_with(eeprom: Option<usize>, sram: Option<usize>, flash: bool) -> cen64_options {
    let mut o = cen64_options::default();
    if let Some(size) = eeprom {
        o.eeprom_path = Some("game.eep".to_string());
        o.eeprom_size = size;
    }
    if let Some(size) = sram {
        o.sram_path = Some("game.sra".to_string());
        o.sram_size = size;
    }
    if flash {
        o.flashram_path = Some("game.fla".to_string());
    }
    o
}

fn plan(warning: Option<SaveWarning>, slot: SaveSlot, with_path: bool, size: usize, report_created: bool) -> Option<CartSavePlan> {
    Some(CartSavePlan { warning, open: SaveOpen { slot, with_path, size, report_created } })
}

#[test]
fn eeprom_4k_without_file_warns_and_opens_in_memory() {
    let t = cart_db_save_type::CART_DB_SAVE_TYPE_EEPROM_4KBIT;
    let r = plan_cart_save(t, &options_with(None, None, false));
    assert_eq!(r, plan(Some(SaveWarning::Missing(t)), SaveSlot::Eeprom, false, 0x200, false));
}

#[test]
fn eeprom_4k_with_other_size_warns_and_opens_the_file() {
    let t = cart_db_save_type::CART_DB_SAVE_TYPE_EEPROM_4KBIT;
    let r = plan_cart_save(t, &options_with(Some(0x800), None, false));
    assert_eq!(r, plan(Some(SaveWarning::WrongSize(t)), SaveSlot::Eeprom, true, 0x200, false));
}

#[test]
fn eeprom_16k_with_matching_size_opens_quietly() {
    let t = cart_db_save_type::CART_DB_SAVE_TYPE_EEPROM_16KBIT;
    let r = plan_cart_save(t, &options_with(Some(0x800), None, false));
    assert_eq!(r, plan(None, SaveSlot::Eeprom, true, 0x800, false));
}

#[test]
fn sram_sizes_follow_the_kind() {
    let o = options_with(None, Some(0x8000), false);
    assert_eq!(
        plan_cart_save(cart_db_save_type::CART_DB_SAVE_TYPE_SRAM_256KBIT, &o),
        plan(None, SaveSlot::Sram, true, 0x8000, false)
    );
    assert_eq!(
        plan_cart_save(cart_db_save_type::CART_DB_SAVE_TYPE_SRAM_768KBIT, &o),
        plan(Some(SaveWarning::WrongSize(cart_db_save_type::CART_DB_SAVE_TYPE_SRAM_768KBIT)), SaveSlot::Sram, true, 0x18000, false)
    );
    assert_eq!(
        plan_cart_save(cart_db_save_type::CART_DB_SAVE_TYPE_SRAM_1MBIT, &options_with(None, None, false)),
        plan(Some(SaveWarning::Missing(cart_db_save_type::CART_DB_SAVE_TYPE_SRAM_1MBIT)), SaveSlot::Sram, false, 0x20000, false)
    );
}

#[test]
fn flash_reports_creation_and_has_no_size_check() {
    let t = cart_db_save_type::CART_DB_SAVE_TYPE_FLASH_1MBIT;
    assert_eq!(plan_cart_save(t, &options_with(None, None, true)), plan(None, SaveSlot::Flashram, true, 0x20000, true));
    assert_eq!(
        plan_cart_save(t, &options_with(None, None, false)),
        plan(Some(SaveWarning::Missing(t)), SaveSlot::Flashram, false, 0x20000, true)
    );
}

#[test]
fn cartridge_without_save_memory_opens_nothing() {
    assert_eq!(plan_cart_save(cart_db_save_type::CART_DB_SAVE_TYPE_NONE, &options_with(Some(1), Some(1), true)), None);
}

#[test]
fn warning_texts() {
    assert_eq!(
        SaveWarning::Missing(cart_db_save_type::CART_DB_SAVE_TYPE_EEPROM_4KBIT).text(),
        "Warning: cart saves to 4kbit EEPROM, but none specified (see -eep4k)"
    );
    assert_eq!(
        SaveWarning::WrongSize(cart_db_save_type::CART_DB_SAVE_TYPE_SRAM_768KBIT).text(),
        "Warning: cart saves to 768kbit SRAM, but different size specified (see -sram768k)"
    );
    assert_eq!(
        SaveWarning::Missing(cart_db_save_type::CART_DB_SAVE_TYPE_FLASH_1MBIT).text(),
        "Warning: cart saves to Flash, but none specified (see -flash)"
    );
}

fn header(region: u8, revision: u8) -> Vec<u8> {
    let mut h = vec![0u8; 0x40];
    h[0x3e] = region;
    h[0x3f] = revision;
    h
}

#[test]
fn early_japanese_kirby_uses_256k_sram() {
    let listed = cart_db_save_type::CART_DB_SAVE_TYPE_EEPROM_4KBIT;
    assert_eq!(effective_save_type(b"NK4", &header(b'J', 0), listed), cart_db_save_type::CART_DB_SAVE_TYPE_SRAM_256KBIT);
    assert_eq!(effective_save_type(b"NK4", &header(b'J', 1), listed), cart_db_save_type::CART_DB_SAVE_TYPE_SRAM_256KBIT);
}

#[test]
fn other_kirby_revisions_and_carts_keep_the_listed_type() {
    let listed = cart_db_save_type::CART_DB_SAVE_TYPE_EEPROM_4KBIT;
    assert_eq!(effective_save_type(b"NK4", &header(b'J', 2), listed), listed);
    assert_eq!(effective_save_type(b"NK4", &header(b'E', 0), listed), listed);
    assert_eq!(effective_save_type(b"NK4X", &header(b'J', 0), listed), listed);
    assert_eq!(effective_save_type(b"NSM", &[], listed), listed);
}

fn args(cart: Option<&str>) -> Cen64Args {
    Cen64Args {
        debug: false,
        debugger_address: "127.0.0.1".to_string(),
        profile: true,
        multithread: true,
        ddipl: Some("ipl.n64".to_string()),
        ddrom: None,
        headless: false,
        noaudio: true,
        novideo: false,
        eep4k: None,
        eep16k: None,
        sram: Some(SaveType::Sram { path: "x.sra".to_string() }),
        is_viewer: false,
        controller: vec![],
        pif_rom: "pifdata.bin".to_string(),
        cart_rom: cart.map(|c| c.to_string()),
    }
}

#[test]
fn command_line_sets_roms_saves_and_switches() {
    let mut o = cen64_options::default();
    o.eeprom_size = 0x200;
    o.is_viewer_output = 1;
    o.ddrom_path = Some("old.ndd".to_string());
    let r = apply_args(o, args(Some("game.z64")));
    assert_eq!(r.pifrom_path, Some("pifdata.bin".to_string()));
    assert_eq!(r.cart_path, Some("game.z64".to_string()));
    assert_eq!(r.ddipl_path, Some("ipl.n64".to_string()));
    assert_eq!(r.ddrom_path, None);
    assert!(r.multithread);
    assert!(r.no_audio);
    assert!(!r.no_video);
    assert!(r.enable_profiling);
    assert!(!r.enable_debugger);
    assert_eq!(r.debugger_addr, None);
    assert_eq!(r.sram_path, Some("x.sra".to_string()));
    assert_eq!(r.sram_size, 0x8000);
    assert_eq!(r.eeprom_path, None);
    assert_eq!(r.eeprom_size, 0x200);
    assert_eq!(r.flashram_path, None);
    assert_eq!(r.is_viewer_output, 0);
}

#[test]
fn eeprom_files_take_the_size_of_their_kind() {
    let mut a = args(Some("game.z64"));
    a.eep16k = Some("b.eep".to_string());
    let r = apply_args(cen64_options::default(), a);
    assert_eq!(r.eeprom_path, Some("b.eep".to_string()));
    assert_eq!(r.eeprom_size, 0x800);
    let mut a = args(Some("game.z64"));
    a.eep4k = Some("a.eep".to_string());
    a.eep16k = Some("b.eep".to_string());
    let r = apply_args(cen64_options::default(), a);
    assert_eq!(r.eeprom_path, Some("a.eep".to_string()));
    assert_eq!(r.eeprom_size, 0x200);
}

#[test]
fn save_subcommands_set_sram_or_flash() {
    let mut a = args(Some("game.z64"));
    a.sram = Some(SaveType::Sram768k { path: "c.sra".to_string() });
    let r = apply_args(cen64_options::default(), a);
    assert_eq!((r.sram_path, r.sram_size), (Some("c.sra".to_string()), 0x18000));
    let mut a = args(Some("game.z64"));
    a.sram = Some(SaveType::Sram1m { path: "d.sra".to_string() });
    let r = apply_args(cen64_options::default(), a);
    assert_eq!((r.sram_path, r.sram_size), (Some("d.sra".to_string()), 0x20000));
    let mut a = args(Some("game.z64"));
    a.sram = Some(SaveType::Sram256k { path: "e.sra".to_string() });
    let r = apply_args(cen64_options::default(), a);
    assert_eq!((r.sram_path, r.sram_size), (Some("e.sra".to_string()), 0x8000));
    let mut a = args(Some("game.z64"));
    a.sram = Some(SaveType::Flash { path: "f.fla".to_string() });
    let r = apply_args(cen64_options::default(), a);
    assert_eq!(r.flashram_path, Some("f.fla".to_string()));
    assert_eq!(r.sram_path, None);
    assert_eq!(r.sram_size, 0);
}

#[test]
fn debug_flag_keeps_the_debugger_as_configured() {
    let mut a = args(Some("game.z64"));
    a.debug = true;
    a.is_viewer = true;
    let r = apply_args(cen64_options::default(), a);
    assert!(!r.enable_debugger);
    assert_eq!(r.debugger_addr, None);
    assert_eq!(r.is_viewer_output, 1);
}

#[test]
fn default_options_are_empty() {
    let o = cen64_options::default();
    assert_eq!(o.cart_path, None);
    assert_eq!(o.pifrom_path, None);
    assert_eq!(o.eeprom_size, 0);
    assert_eq!(o.sram_size, 0);
    assert!(!o.multithread && !o.no_audio && !o.no_video && !o.enable_debugger && !o.enable_profiling);
}
