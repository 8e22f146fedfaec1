//! The soft-switch bank: a closed set of mode bits that reads and writes
//! in $C000..$C100 set, clear or query.
//!
//! An access to an address this table does not define returns 0 and
//! changes nothing.

use vstd::prelude::*;

verus! {

/// One of the mode bits the I/O page controls.
///
/// See the Apple //e Technical Reference Manual, Appendix F.
#[derive(Clone, Copy, Debug, PartialEq, Eq, Structural)]
pub enum SoftSwitch {
    Altchar,
    _80Col,
    _80Store,
    Page2,
    Text,
    Mixed,
    Hires,
    IouEnable,
    Dhires,
    /// Write protect language card RAM.
    WriteProtect,
    /// In language card RAM, select bank 2 for $d000..$e000.
    Bnk2,
    /// Enable language card RAM for reading, instead of ROM.
    Lcram,
    Altzp,
}

/// The state of every soft switch. All start out false.
#[derive(Clone, Copy, Debug, PartialEq, Eq, Structural)]
pub struct SoftSwitches {
    pub altchar: bool,
    pub col80: bool,
    pub store80: bool,
    pub page2: bool,
    pub text: bool,
    pub mixed: bool,
    pub hires: bool,
    pub iou_enable: bool,
    pub dhires: bool,
    pub write_protect: bool,
    pub bnk2: bool,
    pub lcram: bool,
    pub altzp: bool,
}

/// Whether an access is a read or a write; some table entries act only on
/// one of the two.
#[derive(Clone, Copy, Debug, PartialEq, Eq, Structural)]
pub enum AccessType {
    Read,
    Write,
}

/// What a defined table entry does: clear its switch, enable it, or
/// report it.
#[derive(Clone, Copy, Debug, PartialEq, Eq, Structural)]
pub enum Operation {
    Clear,
    Enable,
    Query,
}

pub open spec fn spec_switch_get(s: SoftSwitches, sw: SoftSwitch) -> bool {
    match sw {
        SoftSwitch::Altchar => s.altchar,
        SoftSwitch::_80Col => s.col80,
        SoftSwitch::_80Store => s.store80,
        SoftSwitch::Page2 => s.page2,
        SoftSwitch::Text => s.text,
        SoftSwitch::Mixed => s.mixed,
        SoftSwitch::Hires => s.hires,
        SoftSwitch::IouEnable => s.iou_enable,
        SoftSwitch::Dhires => s.dhires,
        SoftSwitch::WriteProtect => s.write_protect,
        SoftSwitch::Bnk2 => s.bnk2,
        SoftSwitch::Lcram => s.lcram,
        SoftSwitch::Altzp => s.altzp,
    }
}

pub open spec fn spec_switch_set(s: SoftSwitches, sw: SoftSwitch, on: bool) -> SoftSwitches {
    match sw {
        SoftSwitch::Altchar => SoftSwitches { altchar: on, ..s },
        SoftSwitch::_80Col => SoftSwitches { col80: on, ..s },
        SoftSwitch::_80Store => SoftSwitches { store80: on, ..s },
        SoftSwitch::Page2 => SoftSwitches { page2: on, ..s },
        SoftSwitch::Text => SoftSwitches { text: on, ..s },
        SoftSwitch::Mixed => SoftSwitches { mixed: on, ..s },
        SoftSwitch::Hires => SoftSwitches { hires: on, ..s },
        SoftSwitch::IouEnable => SoftSwitches { iou_enable: on, ..s },
        SoftSwitch::Dhires => SoftSwitches { dhires: on, ..s },
        SoftSwitch::WriteProtect => SoftSwitches { write_protect: on, ..s },
        SoftSwitch::Bnk2 => SoftSwitches { bnk2: on, ..s },
        SoftSwitch::Lcram => SoftSwitches { lcram: on, ..s },
        SoftSwitch::Altzp => SoftSwitches { altzp: on, ..s },
    }
}

/// The switch state with every switch off.
pub open spec fn spec_switches_new() -> SoftSwitches {
    SoftSwitches {
        altchar: false,
        col80: false,
        store80: false,
        page2: false,
        text: false,
        mixed: false,
        hires: false,
        iou_enable: false,
        dhires: false,
        write_protect: false,
        bnk2: false,
        lcram: false,
        altzp: false,
    }
}

/// The fixed table from low address byte and access type to switch and
/// operation, for the defined entries.
#[verifier::opaque]
pub open spec fn spec_soft_switch_info(lo: u8, rw: AccessType) -> Option<(SoftSwitch, Operation)> {
    match (lo, rw) {
        (0x0e, AccessType::Write) => Some((SoftSwitch::Altchar, Operation::Clear)),
        (0x0f, AccessType::Write) => Some((SoftSwitch::Altchar, Operation::Enable)),
        (0x1e, AccessType::Read) => Some((SoftSwitch::Altchar, Operation::Query)),
        (0x0c, AccessType::Write) => Some((SoftSwitch::_80Col, Operation::Clear)),
        (0x0d, AccessType::Write) => Some((SoftSwitch::_80Col, Operation::Enable)),
        (0x1f, AccessType::Read) => Some((SoftSwitch::_80Col, Operation::Query)),
        (0x00, AccessType::Write) => Some((SoftSwitch::_80Store, Operation::Clear)),
        (0x01, AccessType::Write) => Some((SoftSwitch::_80Store, Operation::Enable)),
        (0x18, AccessType::Read) => Some((SoftSwitch::_80Store, Operation::Query)),
        (0x54, _) => Some((SoftSwitch::Page2, Operation::Clear)),
        (0x55, _) => Some((SoftSwitch::Page2, Operation::Enable)),
        (0x1c, AccessType::Read) => Some((SoftSwitch::Page2, Operation::Query)),
        (0x50, _) => Some((SoftSwitch::Text, Operation::Clear)),
        (0x51, _) => Some((SoftSwitch::Text, Operation::Enable)),
        (0x1a, AccessType::Read) => Some((SoftSwitch::Text, Operation::Query)),
        (0x52, _) => Some((SoftSwitch::Mixed, Operation::Clear)),
        (0x53, _) => Some((SoftSwitch::Mixed, Operation::Enable)),
        (0x1b, AccessType::Read) => Some((SoftSwitch::Mixed, Operation::Query)),
        (0x56, _) => Some((SoftSwitch::Hires, Operation::Clear)),
        (0x57, _) => Some((SoftSwitch::Hires, Operation::Enable)),
        (0x1d, AccessType::Read) => Some((SoftSwitch::Hires, Operation::Query)),
        (0x7e, AccessType::Write) => Some((SoftSwitch::IouEnable, Operation::Clear)),
        (0x7f, AccessType::Write) => Some((SoftSwitch::IouEnable, Operation::Enable)),
        (0x7e, AccessType::Read) => Some((SoftSwitch::IouEnable, Operation::Query)),
        (0x5e, _) => Some((SoftSwitch::Dhires, Operation::Clear)),
        (0x5f, _) => Some((SoftSwitch::Dhires, Operation::Enable)),
        (0x7f, AccessType::Read) => Some((SoftSwitch::Dhires, Operation::Query)),
        (0x11, AccessType::Read) => Some((SoftSwitch::Bnk2, Operation::Query)),
        (0x12, AccessType::Read) => Some((SoftSwitch::Lcram, Operation::Query)),
        (0x08, AccessType::Write) => Some((SoftSwitch::Altzp, Operation::Clear)),
        (0x09, AccessType::Write) => Some((SoftSwitch::Altzp, Operation::Enable)),
        (0x16, AccessType::Read) => Some((SoftSwitch::Altzp, Operation::Query)),
        _ => None,
    }
}

/// The bank-select decoder for the defined addresses $C080..$C08F with
/// bit 2 clear: bit 3 clear selects language-card bank 2, bit 0 set
/// enables writes, and equal low bits enable reading language-card RAM.
pub open spec fn spec_bank_select(s: SoftSwitches, lo: u8) -> SoftSwitches {
    let bank_1 = lo & 0x08 != 0;
    let write_enable = lo & 0x01 != 0;
    let read_ram = (lo & 0x02 != 0) == (lo & 0x01 != 0);
    SoftSwitches { bnk2: !bank_1, write_protect: !write_enable, lcram: read_ram, ..s }
}

/// One access to the switch page: the state afterwards, and the answer a
/// query returns, if the address queries.
#[verifier::opaque]
pub open spec fn spec_access(s: SoftSwitches, lo: u8, rw: AccessType) -> (SoftSwitches, Option<
    bool,
>) {
    if lo & 0x80 != 0 {
        if lo & 0xf0 == 0x80 && lo & 0x04 == 0 {
            (spec_bank_select(s, lo), None)
        } else {
            (s, None)
        }
    } else {
        match spec_soft_switch_info(lo, rw) {
            Some((sw, Operation::Clear)) => (spec_switch_set(s, sw, false), None),
            Some((sw, Operation::Enable)) => (spec_switch_set(s, sw, true), None),
            Some((sw, Operation::Query)) => (s, Some(spec_switch_get(s, sw))),
            None => (s, None),
        }
    }
}

/// The byte a read of the switch page returns: $80 for a true query, 0
/// otherwise.
pub open spec fn spec_access_read_val(s: SoftSwitches, lo: u8) -> u8 {
    match spec_access(s, lo, AccessType::Read).1 {
        Some(true) => 0x80,
        _ => 0,
    }
}

/// The fixed table from low address byte and access type to switch and
/// operation.
pub fn soft_switch_info(lo: u8, rw: AccessType) -> (r: Option<(SoftSwitch, Operation)>)
    ensures
        r == spec_soft_switch_info(lo, rw),
{
    proof {
        reveal(spec_soft_switch_info);
    }
    match (lo, rw) {
        (0x0e, AccessType::Write) => Some((SoftSwitch::Altchar, Operation::Clear)),
        (0x0f, AccessType::Write) => Some((SoftSwitch::Altchar, Operation::Enable)),
        (0x1e, AccessType::Read) => Some((SoftSwitch::Altchar, Operation::Query)),
        (0x0c, AccessType::Write) => Some((SoftSwitch::_80Col, Operation::Clear)),
        (0x0d, AccessType::Write) => Some((SoftSwitch::_80Col, Operation::Enable)),
        (0x1f, AccessType::Read) => Some((SoftSwitch::_80Col, Operation::Query)),
        (0x00, AccessType::Write) => Some((SoftSwitch::_80Store, Operation::Clear)),
        (0x01, AccessType::Write) => Some((SoftSwitch::_80Store, Operation::Enable)),
        (0x18, AccessType::Read) => Some((SoftSwitch::_80Store, Operation::Query)),
        (0x54, _) => Some((SoftSwitch::Page2, Operation::Clear)),
        (0x55, _) => Some((SoftSwitch::Page2, Operation::Enable)),
        (0x1c, AccessType::Read) => Some((SoftSwitch::Page2, Operation::Query)),
        (0x50, _) => Some((SoftSwitch::Text, Operation::Clear)),
        (0x51, _) => Some((SoftSwitch::Text, Operation::Enable)),
        (0x1a, AccessType::Read) => Some((SoftSwitch::Text, Operation::Query)),
        (0x52, _) => Some((SoftSwitch::Mixed, Operation::Clear)),
        (0x53, _) => Some((SoftSwitch::Mixed, Operation::Enable)),
        (0x1b, AccessType::Read) => Some((SoftSwitch::Mixed, Operation::Query)),
        (0x56, _) => Some((SoftSwitch::Hires, Operation::Clear)),
        (0x57, _) => Some((SoftSwitch::Hires, Operation::Enable)),
        (0x1d, AccessType::Read) => Some((SoftSwitch::Hires, Operation::Query)),
        (0x7e, AccessType::Write) => Some((SoftSwitch::IouEnable, Operation::Clear)),
        (0x7f, AccessType::Write) => Some((SoftSwitch::IouEnable, Operation::Enable)),
        (0x7e, AccessType::Read) => Some((SoftSwitch::IouEnable, Operation::Query)),
        (0x5e, _) => Some((SoftSwitch::Dhires, Operation::Clear)),
        (0x5f, _) => Some((SoftSwitch::Dhires, Operation::Enable)),
        (0x7f, AccessType::Read) => Some((SoftSwitch::Dhires, Operation::Query)),
        (0x11, AccessType::Read) => Some((SoftSwitch::Bnk2, Operation::Query)),
        (0x12, AccessType::Read) => Some((SoftSwitch::Lcram, Operation::Query)),
        (0x08, AccessType::Write) => Some((SoftSwitch::Altzp, Operation::Clear)),
        (0x09, AccessType::Write) => Some((SoftSwitch::Altzp, Operation::Enable)),
        (0x16, AccessType::Read) => Some((SoftSwitch::Altzp, Operation::Query)),
        _ => None,
    }
}

impl SoftSwitches {
    pub fn new() -> (r: SoftSwitches)
        ensures
            r == spec_switches_new(),
    {
        SoftSwitches {
            altchar: false,
            col80: false,
            store80: false,
            page2: false,
            text: false,
            mixed: false,
            hires: false,
            iou_enable: false,
            dhires: false,
            write_protect: false,
            bnk2: false,
            lcram: false,
            altzp: false,
        }
    }

    pub fn is_set(&self, switch: SoftSwitch) -> (r: bool)
        ensures
            r == spec_switch_get(*self, switch),
    {
        match switch {
            SoftSwitch::Altchar => self.altchar,
            SoftSwitch::_80Col => self.col80,
            SoftSwitch::_80Store => self.store80,
            SoftSwitch::Page2 => self.page2,
            SoftSwitch::Text => self.text,
            SoftSwitch::Mixed => self.mixed,
            SoftSwitch::Hires => self.hires,
            SoftSwitch::IouEnable => self.iou_enable,
            SoftSwitch::Dhires => self.dhires,
            SoftSwitch::WriteProtect => self.write_protect,
            SoftSwitch::Bnk2 => self.bnk2,
            SoftSwitch::Lcram => self.lcram,
            SoftSwitch::Altzp => self.altzp,
        }
    }

    fn set_to(&mut self, switch: SoftSwitch, on: bool)
        ensures
            *final(self) == spec_switch_set(*old(self), switch, on),
    {
        match switch {
            SoftSwitch::Altchar => *self = SoftSwitches { altchar: on, ..*self },
            SoftSwitch::_80Col => *self = SoftSwitches { col80: on, ..*self },
            SoftSwitch::_80Store => *self = SoftSwitches { store80: on, ..*self },
            SoftSwitch::Page2 => *self = SoftSwitches { page2: on, ..*self },
            SoftSwitch::Text => *self = SoftSwitches { text: on, ..*self },
            SoftSwitch::Mixed => *self = SoftSwitches { mixed: on, ..*self },
            SoftSwitch::Hires => *self = SoftSwitches { hires: on, ..*self },
            SoftSwitch::IouEnable => *self = SoftSwitches { iou_enable: on, ..*self },
            SoftSwitch::Dhires => *self = SoftSwitches { dhires: on, ..*self },
            SoftSwitch::WriteProtect => *self = SoftSwitches { write_protect: on, ..*self },
            SoftSwitch::Bnk2 => *self = SoftSwitches { bnk2: on, ..*self },
            SoftSwitch::Lcram => *self = SoftSwitches { lcram: on, ..*self },
            SoftSwitch::Altzp => *self = SoftSwitches { altzp: on, ..*self },
        }
    }

    fn bank_select(&mut self, lo: u8)
        requires
            lo & 0xf0 == 0x80,
            lo & 0x04 == 0,
        ensures
            *final(self) == spec_bank_select(*old(self), lo),
    {
        // NOTE: this is flipped from what you'd probably expect.
        let bank_1 = lo & 0x08 != 0;
        self.set_to(SoftSwitch::Bnk2, !bank_1);

        // Again, note the flip.
        let write_enable = lo & 0x01 != 0;
        self.set_to(SoftSwitch::WriteProtect, !write_enable);

        // If the two lowest bits are the same, read RAM. Otherwise, read ROM.
        let read_ram = (lo & 0x02 != 0) == (lo & 0x01 != 0);
        self.set_to(SoftSwitch::Lcram, read_ram);
    }

    /// One access, read or write: perform the side effect and hand back a
    /// query's answer.
    pub fn access(&mut self, lo: u8, rw: AccessType) -> (r: Option<bool>)
        ensures
            *final(self) == spec_access(*old(self), lo, rw).0,
            r == spec_access(*old(self), lo, rw).1,
    {
        proof {
            reveal(spec_access);
        }
        if lo & 0x80 != 0 {
            if lo & 0xf0 == 0x80 && lo & 0x04 == 0 {
                self.bank_select(lo);
            }
            return None;
        }
        match soft_switch_info(lo, rw) {
            Some((switch, Operation::Clear)) => {
                self.set_to(switch, false);
                None
            },
            Some((switch, Operation::Enable)) => {
                self.set_to(switch, true);
                None
            },
            Some((switch, Operation::Query)) => Some(self.is_set(switch)),
            None => None,
        }
    }

    /// A read of the switch page: $80 for a true query, 0 otherwise.
    pub fn read(&mut self, addr: u16) -> (r: u8)
        requires
            0xc000 <= addr <= 0xc0ff,
        ensures
            *final(self) == spec_access(*old(self), (addr - 0xc000) as u8, AccessType::Read).0,
            r == spec_access_read_val(*old(self), (addr - 0xc000) as u8),
    {
        let lo = (addr - 0xc000) as u8;
        match self.access(lo, AccessType::Read) {
            Some(true) => 0x80,
            Some(false) => 0,
            None => 0,
        }
    }

    /// A write to the switch page: the same side effect as a read of a
    /// set or clear address; writes to query-only addresses are ignored.
    pub fn write(&mut self, addr: u16)
        requires
            0xc000 <= addr <= 0xc0ff,
        ensures
            *final(self) == spec_access(*old(self), (addr - 0xc000) as u8, AccessType::Write).0,
    {
        let lo = (addr - 0xc000) as u8;
        let _ = self.access(lo, AccessType::Write);
    }
}

} // verus!
