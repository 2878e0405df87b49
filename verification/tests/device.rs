use rusty_picopd::device::AP33772;
use rusty_picopd::device::REG_RDO;
use rusty_picopd::device::le_word;
use rusty_picopd::device::ocp_threshold_byte;
use rusty_picopd::device::rdo_frame;
use rusty_picopd::device::reset_frame;
use rusty_picopd::device::scale_current;
use rusty_picopd::device::scale_voltage;
use rusty_picopd::regs::FixedRDO;
use rusty_picopd::regs::PDO;
use rusty_picopd::regs::RDO;
use rusty_picopd::selector::Target;
use rusty_picopd::selector::select;

fn put_word(block: &mut [u8; 28], slot: usize, w: u32) {
    block[4 * slot] = (w & 0xff) as u8;
    block[4 * slot + 1] = ((w >> 8) & 0xff) as u8;
    block[4 * slot + 2] = ((w >> 16) & 0xff) as u8;
    block[4 * slot + 3] = ((w >> 24) & 0xff) as u8;
}

#[test]
fn fresh_state_is_empty() {
    let d = AP33772::new();
    assert_eq!(d.status.0, 0);
    assert!(d.pdos.iter().all(|p| p.is_none()));
}

#[test]
fn le_word_assembles_little_endian() {
    assert_eq!(le_word(0x78, 0x56, 0x34, 0x12), 0x1234_5678);
    assert_eq!(le_word(0, 0, 0, 0), 0);
    assert_eq!(le_word(0xff, 0xff, 0xff, 0xff), 0xffff_ffff);
}

#[test]
fn update_reports_when_table_must_be_reread() {
    let mut d = AP33772::new();
    // ready + newpdos: the block must be re-read.
    assert!(d.update(0x05));
    assert_eq!(d.status.0, 0x05);
    // ready alone: no.
    assert!(!d.update(0x01));
    // newpdos without ready: no.
    assert!(!d.update(0x04));
    // The table itself is untouched by a status update.
    assert!(d.pdos.iter().all(|p| p.is_none()));
}

#[test]
fn load_pdos_decodes_every_slot() {
    let mut block = [0u8; 28];
    // Slot 1: fixed 5000 mV / 3000 mA.
    put_word(&mut block, 0, (100 << 10) | 300);
    // Slot 2: programmable 3300..11000 mV / 5000 mA.
    put_word(&mut block, 1, 0xc000_0000 | (110 << 17) | (33 << 8) | 100);
    // Slot 3: an unknown pattern, ignored.
    put_word(&mut block, 2, 0x8000_0001);
    // Slots 4..7 stay empty.

    let mut d = AP33772::new();
    d.update(0x05);
    d.load_pdos(&block);

    assert_eq!(d.status.0, 0x05);
    match d.pdos[0] {
        Some(PDO::Fixed(f)) => {
            assert_eq!(f.v(), 100);
            assert_eq!(f.imax(), 300);
        }
        other => panic!("expected a fixed offer, got {:?}", other),
    }
    match d.pdos[1] {
        Some(PDO::Programmable(a)) => {
            assert_eq!(a.vmin(), 33);
            assert_eq!(a.vmax(), 110);
            assert_eq!(a.imax(), 100);
        }
        other => panic!("expected a programmable offer, got {:?}", other),
    }
    for i in 2..7 {
        assert_eq!(d.pdos[i], None);
    }
}

#[test]
fn load_pdos_rewrites_the_whole_table() {
    let mut block = [0u8; 28];
    put_word(&mut block, 6, (180 << 10) | 100);
    let mut d = AP33772::new();
    d.load_pdos(&block);
    assert!(d.pdos[6].is_some());

    // A later all-empty block clears every slot.
    let empty = [0u8; 28];
    d.load_pdos(&empty);
    assert!(d.pdos.iter().all(|p| p.is_none()));
}

#[test]
fn telemetry_scaling() {
    // Voltage: LSB 80 mV.
    assert_eq!(scale_voltage(0), 0);
    assert_eq!(scale_voltage(100), 8000);
    assert_eq!(scale_voltage(255), 20400);
    // Current: LSB 24 mA — ADC scaling, unrelated to the PDO scales.
    assert_eq!(scale_current(0), 0);
    assert_eq!(scale_current(100), 2400);
    assert_eq!(scale_current(255), 6120);
}

#[test]
fn ocp_threshold_scaling() {
    assert_eq!(ocp_threshold_byte(200), 4);
    assert_eq!(ocp_threshold_byte(10000), 200);
    assert_eq!(ocp_threshold_byte(12750), 255);
    assert_eq!(ocp_threshold_byte(0), 0);
    // Values below one LSB round down.
    assert_eq!(ocp_threshold_byte(49), 0);
}

#[test]
fn rdo_frame_is_opcode_plus_le_word() {
    let mut frdo = FixedRDO(0);
    frdo.pos(3);
    frdo.i(150);
    frdo.imax(150);
    let frame = rdo_frame(&RDO::FixedRDO(frdo));
    assert_eq!(frame[0], REG_RDO);
    assert_eq!(frame, [0x30, 0x96, 0x58, 0x02, 0x30]);
    // The payload reassembles to the request word.
    assert_eq!(le_word(frame[1], frame[2], frame[3], frame[4]), 0x3002_5896);
}

#[test]
fn reset_frame_requests_nothing() {
    assert_eq!(reset_frame(), [0x30, 0, 0, 0, 0]);
}

#[test]
fn update_load_select_flow() {
    // The full driver-side cycle: a status with ready+newpdos, a block
    // read, and a selection over the refreshed table.
    let mut block = [0u8; 28];
    put_word(&mut block, 0, (100 << 10) | 300);
    put_word(&mut block, 3, 0xc000_0000 | (110 << 17) | (33 << 8) | 100);

    let mut d = AP33772::new();
    let refresh = d.update(0x05);
    assert!(refresh);
    d.load_pdos(&block);

    let t = Target { v_nom: 5000, v_min: 3300, v_max: 5000, i_nom: 2000, i_min: 1500 };
    let (pos, rdo) = select(&d.pdos, t).unwrap();
    assert_eq!(pos, 4);
    let w = *rdo.reg();
    assert_eq!((w >> 28) & 0x7, 4);
}
