use vstd::prelude::*;
use vstd::string::StrSliceExecFns;
use crate::strutil::str_eq;

verus! {

/// One game's configuration: its title, platform, and the board layouts its
/// cartridges are known to use.
#[derive(Clone, Debug, PartialEq, Eq)]
pub struct GameConfig {
    pub name: String,
    pub platform: GamePlatform,
    pub layouts: Vec<BoardLayout>,
}

#[derive(Copy, Clone, Debug, PartialEq, Eq)]
pub enum GamePlatform {
    Gb,
    Gbc,
    Gba,
}

pub open spec fn spec_platform_name(p: GamePlatform) -> Seq<char> {
    match p {
        GamePlatform::Gb => "GB"@,
        GamePlatform::Gbc => "GBC"@,
        GamePlatform::Gba => "GBA"@,
    }
}

impl GamePlatform {
    /// The display name of the platform.
    pub fn name(&self) -> (r: &'static str)
        ensures
            r@ == spec_platform_name(*self),
    {
        match self {
            GamePlatform::Gb => "GB",
            GamePlatform::Gbc => "GBC",
            GamePlatform::Gba => "GBA",
        }
    }
}

#[derive(Copy, Clone, Debug, PartialEq, Eq)]
pub enum BoardLayout {
    Rom,
    RomMapper,
    RomMapperRam,
    RomMapperRamXtal,
    Mbc2,
    Mbc6,
    Mbc7,
    Type15,
    Huc3,
    Tama,
}

/// The known board code stems and the layout of each.
pub open spec fn board_layout_table() -> Seq<(Seq<char>, BoardLayout)> {
    seq![
        ("0200309E4-01"@, BoardLayout::Tama),
        ("AAAC S"@, BoardLayout::Rom),
        ("CGB-A32"@, BoardLayout::Mbc6),
        ("DMG-A02"@, BoardLayout::RomMapperRam),
        ("DMG-A03"@, BoardLayout::RomMapperRam),
        ("DMG-A04"@, BoardLayout::RomMapperRam),
        ("DMG-A06"@, BoardLayout::RomMapperRam),
        ("DMG-A07"@, BoardLayout::RomMapper),
        ("DMG-A08"@, BoardLayout::RomMapperRam),
        ("DMG-A09"@, BoardLayout::RomMapper),
        ("DMG-A10"@, BoardLayout::RomMapper),
        ("DMG-A11"@, BoardLayout::RomMapperRam),
        ("DMG-A12"@, BoardLayout::RomMapperRam),
        ("DMG-A13"@, BoardLayout::RomMapper),
        ("DMG-A14"@, BoardLayout::RomMapperRam),
        ("DMG-A15"@, BoardLayout::Type15),
        ("DMG-A16"@, BoardLayout::RomMapperRam),
        ("DMG-A18"@, BoardLayout::RomMapper),
        ("DMG-A40"@, BoardLayout::Mbc7),
        ("DMG-A47"@, BoardLayout::Mbc7),
        ("DMG-AAA"@, BoardLayout::Rom),
        ("DMG-BBA"@, BoardLayout::RomMapper),
        ("DMG-BCA"@, BoardLayout::RomMapper),
        ("DMG-BEAN"@, BoardLayout::RomMapper),
        ("DMG-BEAN(K)"@, BoardLayout::RomMapper),
        ("DMG-BFAN"@, BoardLayout::RomMapper),
        ("DMG-DECN"@, BoardLayout::RomMapperRam),
        ("DMG-DECN(K)"@, BoardLayout::RomMapperRam),
        ("DMG-DEDN"@, BoardLayout::RomMapperRam),
        ("DMG-DFCN"@, BoardLayout::RomMapperRam),
        ("DMG-DGCU"@, BoardLayout::RomMapperRam),
        ("DMG-GDAN"@, BoardLayout::Mbc2),
        ("DMG-KECN"@, BoardLayout::RomMapperRamXtal),
        ("DMG-KFCN"@, BoardLayout::RomMapperRamXtal),
        ("DMG-KFDN"@, BoardLayout::RomMapperRamXtal),
        ("DMG-KGDU"@, BoardLayout::RomMapperRamXtal),
        ("DMG-LFDN"@, BoardLayout::RomMapperRam),
        ("DMG-M-BFAN"@, BoardLayout::RomMapper),
        ("DMG-MC-DFCN"@, BoardLayout::RomMapperRam),
        ("DMG-MC-SFCN"@, BoardLayout::RomMapperRam),
        ("DMG-MHEU"@, BoardLayout::RomMapperRamXtal),
        ("DMG-TEDN"@, BoardLayout::RomMapperRam),
        ("DMG-TFDN"@, BoardLayout::RomMapperRam),
        ("DMG-UEDT"@, BoardLayout::Huc3),
        ("DMG-UFDT"@, BoardLayout::Huc3),
        ("DMG-UGDU"@, BoardLayout::Huc3),
        ("DMG-Z01"@, BoardLayout::RomMapperRam),
        ("DMG-Z02"@, BoardLayout::RomMapperRam),
        ("DMG-Z03"@, BoardLayout::RomMapperRam),
        ("DMG-Z04"@, BoardLayout::RomMapperRam),
    ]
}

/// Builds the board code table as an explicit list, constructed once at
/// startup and passed around rather than held in hidden global state.
pub fn create_map() -> (m: Vec<(&'static str, BoardLayout)>)
    ensures
        m@.len() == board_layout_table().len(),
        forall|i: int|
            0 <= i < m@.len() ==> (#[trigger] m@[i]).0@ == board_layout_table()[i].0 && m@[i].1
                == board_layout_table()[i].1,
{
    let m: Vec<(&'static str, BoardLayout)> = vec![
        ("0200309E4-01", BoardLayout::Tama),
        ("AAAC S", BoardLayout::Rom),
        ("CGB-A32", BoardLayout::Mbc6),
        ("DMG-A02", BoardLayout::RomMapperRam),
        ("DMG-A03", BoardLayout::RomMapperRam),
        ("DMG-A04", BoardLayout::RomMapperRam),
        ("DMG-A06", BoardLayout::RomMapperRam),
        ("DMG-A07", BoardLayout::RomMapper),
        ("DMG-A08", BoardLayout::RomMapperRam),
        ("DMG-A09", BoardLayout::RomMapper),
        ("DMG-A10", BoardLayout::RomMapper),
        ("DMG-A11", BoardLayout::RomMapperRam),
        ("DMG-A12", BoardLayout::RomMapperRam),
        ("DMG-A13", BoardLayout::RomMapper),
        ("DMG-A14", BoardLayout::RomMapperRam),
        ("DMG-A15", BoardLayout::Type15),
        ("DMG-A16", BoardLayout::RomMapperRam),
        ("DMG-A18", BoardLayout::RomMapper),
        ("DMG-A40", BoardLayout::Mbc7),
        ("DMG-A47", BoardLayout::Mbc7),
        ("DMG-AAA", BoardLayout::Rom),
        ("DMG-BBA", BoardLayout::RomMapper),
        ("DMG-BCA", BoardLayout::RomMapper),
        ("DMG-BEAN", BoardLayout::RomMapper),
        ("DMG-BEAN(K)", BoardLayout::RomMapper),
        ("DMG-BFAN", BoardLayout::RomMapper),
        ("DMG-DECN", BoardLayout::RomMapperRam),
        ("DMG-DECN(K)", BoardLayout::RomMapperRam),
        ("DMG-DEDN", BoardLayout::RomMapperRam),
        ("DMG-DFCN", BoardLayout::RomMapperRam),
        ("DMG-DGCU", BoardLayout::RomMapperRam),
        ("DMG-GDAN", BoardLayout::Mbc2),
        ("DMG-KECN", BoardLayout::RomMapperRamXtal),
        ("DMG-KFCN", BoardLayout::RomMapperRamXtal),
        ("DMG-KFDN", BoardLayout::RomMapperRamXtal),
        ("DMG-KGDU", BoardLayout::RomMapperRamXtal),
        ("DMG-LFDN", BoardLayout::RomMapperRam),
        ("DMG-M-BFAN", BoardLayout::RomMapper),
        ("DMG-MC-DFCN", BoardLayout::RomMapperRam),
        ("DMG-MC-SFCN", BoardLayout::RomMapperRam),
        ("DMG-MHEU", BoardLayout::RomMapperRamXtal),
        ("DMG-TEDN", BoardLayout::RomMapperRam),
        ("DMG-TFDN", BoardLayout::RomMapperRam),
        ("DMG-UEDT", BoardLayout::Huc3),
        ("DMG-UFDT", BoardLayout::Huc3),
        ("DMG-UGDU", BoardLayout::Huc3),
        ("DMG-Z01", BoardLayout::RomMapperRam),
        ("DMG-Z02", BoardLayout::RomMapperRam),
        ("DMG-Z03", BoardLayout::RomMapperRam),
        ("DMG-Z04", BoardLayout::RomMapperRam),
    ];
    proof {
        assert forall|i: int| 0 <= i < m@.len() implies (#[trigger] m@[i]).0@
            == board_layout_table()[i].0 && m@[i].1 == board_layout_table()[i].1 by {
        }
    }
    m
}

/// The first table entry whose code is `code`.
pub open spec fn table_lookup(t: Seq<(Seq<char>, BoardLayout)>, code: Seq<char>) -> Option<
    BoardLayout,
>
    decreases t.len(),
{
    if t.len() == 0 {
        None
    } else if t[0].0 == code {
        Some(t[0].1)
    } else {
        table_lookup(t.drop_first(), code)
    }
}

proof fn lemma_table_lookup_match(t: Seq<(Seq<char>, BoardLayout)>, code: Seq<char>, i: int)
    requires
        0 <= i < t.len(),
        t[i].0 == code,
        forall|j: int| 0 <= j < i ==> (#[trigger] t[j]).0 != code,
    ensures
        table_lookup(t, code) == Some(t[i].1),
    decreases i,
{
    if i > 0 {
        lemma_table_lookup_match(t.drop_first(), code, i - 1);
    }
}

proof fn lemma_table_lookup_none(t: Seq<(Seq<char>, BoardLayout)>, code: Seq<char>)
    requires
        forall|j: int| 0 <= j < t.len() ==> (#[trigger] t[j]).0 != code,
    ensures
        table_lookup(t, code) is None,
    decreases t.len(),
{
    if t.len() > 0 {
        lemma_table_lookup_none(t.drop_first(), code);
    }
}

fn lookup_code(m: &Vec<(&'static str, BoardLayout)>, code: &str) -> (r: Option<BoardLayout>)
    requires
        m@.len() == board_layout_table().len(),
        forall|i: int|
            0 <= i < m@.len() ==> (#[trigger] m@[i]).0@ == board_layout_table()[i].0 && m@[i].1
                == board_layout_table()[i].1,
    ensures
        r == table_lookup(board_layout_table(), code@),
{
    let n = m.len();
    let mut i: usize = 0;
    while i < n
        invariant
            i <= n,
            n == m@.len(),
            n == board_layout_table().len(),
            forall|k: int|
                0 <= k < n ==> (#[trigger] m@[k]).0@ == board_layout_table()[k].0 && m@[k].1
                    == board_layout_table()[k].1,
            forall|j: int| 0 <= j < i ==> (#[trigger] board_layout_table()[j]).0 != code@,
        decreases n - i,
    {
        let entry = m[i];
        if str_eq(entry.0, code) {
            proof {
                lemma_table_lookup_match(board_layout_table(), code@, i as int);
            }
            return Some(entry.1);
        }
        i += 1;
    }
    proof {
        lemma_table_lookup_none(board_layout_table(), code@);
    }
    None
}

/// The position of the last `-` in a label, if any.
pub open spec fn last_dash(l: Seq<char>) -> Option<int>
    decreases l.len(),
{
    if l.len() == 0 {
        None
    } else if l.last() == '-' {
        Some(l.len() - 1)
    } else {
        last_dash(l.drop_last())
    }
}

/// What a board label resolves to: the stem before the last dash when the
/// table knows it, otherwise the whole label.
pub open spec fn spec_from_label(l: Seq<char>) -> Option<BoardLayout> {
    match last_dash(l) {
        Some(p) => match table_lookup(board_layout_table(), l.subrange(0, p)) {
            Some(b) => Some(b),
            None => table_lookup(board_layout_table(), l),
        },
        None => table_lookup(board_layout_table(), l),
    }
}

fn rfind_dash(label: &str) -> (r: Option<usize>)
    ensures
        match r {
            Some(p) => p < label@.len() && last_dash(label@) == Some(p as int),
            None => last_dash(label@) is None,
        },
{
    let n = label.unicode_len();
    proof {
        assert(label@.subrange(0, n as int) =~= label@);
    }
    let mut i: usize = n;
    while i > 0
        invariant
            i <= n,
            n == label@.len(),
            last_dash(label@.subrange(0, i as int)) == last_dash(label@),
        decreases i,
    {
        proof {
            assert(label@.subrange(0, i as int).drop_last() =~= label@.subrange(0, i as int - 1));
            assert(label@.subrange(0, i as int).last() == label@[i as int - 1]);
        }
        if label.get_char(i - 1) == '-' {
            return Some(i - 1);
        }
        i -= 1;
    }
    proof {
        assert(label@.subrange(0, 0) =~= Seq::<char>::empty());
    }
    None
}

impl BoardLayout {
    /// Resolves a photographed board label to its layout: the stem before the
    /// last dash is looked up first, and the whole label is tried when that
    /// fails or when there is no dash.
    pub fn from_label(label: &str) -> (r: Option<BoardLayout>)
        ensures
            r == spec_from_label(label@),
    {
        let m = create_map();
        match rfind_dash(label) {
            Some(p) => {
                let stem = label.substring_char(0, p);
                match lookup_code(&m, stem) {
                    Some(b) => Some(b),
                    None => lookup_code(&m, label),
                }
            },
            None => lookup_code(&m, label),
        }
    }
}

#[derive(Copy, Clone, Debug, PartialEq, Eq)]
pub enum ChipRole {
    Unknown,
    Rom,
    Mapper,
    Ram,
    RamBackup,
    Crystal,
    Flash,
    Eeprom,
    Accelerometer,
    LineDecoder,
    Tama,
    HexInverter,
}

/// Which role the chip at each designator position plays on a board.
#[derive(Copy, Clone, Debug, PartialEq, Eq)]
pub struct ChipRoleConfig {
    pub u1: Option<ChipRole>,
    pub u2: Option<ChipRole>,
    pub u3: Option<ChipRole>,
    pub u4: Option<ChipRole>,
    pub u5: Option<ChipRole>,
    pub u6: Option<ChipRole>,
    pub u7: Option<ChipRole>,
    pub x1: Option<ChipRole>,
}

impl Default for ChipRoleConfig {
    fn default() -> (r: Self)
        ensures
            r == (ChipRoleConfig {
                u1: None,
                u2: None,
                u3: None,
                u4: None,
                u5: None,
                u6: None,
                u7: None,
                x1: None,
            }),
    {
        ChipRoleConfig {
            u1: None,
            u2: None,
            u3: None,
            u4: None,
            u5: None,
            u6: None,
            u7: None,
            x1: None,
        }
    }
}

/// The chip roles each board layout carries: the table itself.
pub open spec fn spec_from_layout(layout: BoardLayout) -> ChipRoleConfig {
    match layout {
        BoardLayout::Rom => ChipRoleConfig {
            u1: Some(ChipRole::Rom),
            u2: None,
            u3: None,
            u4: None,
            u5: None,
            u6: None,
            u7: None,
            x1: None,
        },
        BoardLayout::RomMapper => ChipRoleConfig {
            u1: Some(ChipRole::Rom),
            u2: Some(ChipRole::Mapper),
            u3: None,
            u4: None,
            u5: None,
            u6: None,
            u7: None,
            x1: None,
        },
        BoardLayout::RomMapperRam => ChipRoleConfig {
            u1: Some(ChipRole::Rom),
            u2: Some(ChipRole::Mapper),
            u3: Some(ChipRole::Ram),
            u4: Some(ChipRole::RamBackup),
            u5: None,
            u6: None,
            u7: None,
            x1: None,
        },
        BoardLayout::RomMapperRamXtal => ChipRoleConfig {
            u1: Some(ChipRole::Rom),
            u2: Some(ChipRole::Mapper),
            u3: Some(ChipRole::Ram),
            u4: Some(ChipRole::RamBackup),
            u5: None,
            u6: None,
            u7: None,
            x1: Some(ChipRole::Crystal),
        },
        BoardLayout::Mbc2 => ChipRoleConfig {
            u1: Some(ChipRole::Rom),
            u2: Some(ChipRole::Mapper),
            u3: Some(ChipRole::RamBackup),
            u4: None,
            u5: None,
            u6: None,
            u7: None,
            x1: None,
        },
        BoardLayout::Mbc6 => ChipRoleConfig {
            u1: Some(ChipRole::Mapper),
            u2: Some(ChipRole::Rom),
            u3: Some(ChipRole::Flash),
            u4: Some(ChipRole::Ram),
            u5: Some(ChipRole::RamBackup),
            u6: None,
            u7: None,
            x1: None,
        },
        BoardLayout::Mbc7 => ChipRoleConfig {
            u1: Some(ChipRole::Mapper),
            u2: Some(ChipRole::Rom),
            u3: Some(ChipRole::Eeprom),
            u4: Some(ChipRole::Accelerometer),
            u5: None,
            u6: None,
            u7: None,
            x1: None,
        },
        BoardLayout::Type15 => ChipRoleConfig {
            u1: Some(ChipRole::Rom),
            u2: Some(ChipRole::Mapper),
            u3: Some(ChipRole::Ram),
            u4: Some(ChipRole::RamBackup),
            u5: Some(ChipRole::Rom),
            u6: Some(ChipRole::LineDecoder),
            u7: None,
            x1: None,
        },
        BoardLayout::Huc3 => ChipRoleConfig {
            u1: Some(ChipRole::Rom),
            u2: Some(ChipRole::Mapper),
            u3: Some(ChipRole::Ram),
            u4: Some(ChipRole::RamBackup),
            u5: Some(ChipRole::HexInverter),
            u6: None,
            u7: None,
            x1: Some(ChipRole::Crystal),
        },
        BoardLayout::Tama => ChipRoleConfig {
            u1: Some(ChipRole::Tama),
            u2: Some(ChipRole::Tama),
            u3: Some(ChipRole::Tama),
            u4: Some(ChipRole::Unknown),
            u5: Some(ChipRole::RamBackup),
            u6: None,
            u7: None,
            x1: Some(ChipRole::Crystal),
        },
    }
}

impl ChipRoleConfig {
    /// The chip roles of a board layout.
    pub fn from_layout(layout: BoardLayout) -> (r: ChipRoleConfig)
        ensures
            r == spec_from_layout(layout),
    {
        match layout {
            BoardLayout::Rom => ChipRoleConfig {
                u1: Some(ChipRole::Rom),
                ..Default::default()
            },
            BoardLayout::RomMapper => ChipRoleConfig {
                u1: Some(ChipRole::Rom),
                u2: Some(ChipRole::Mapper),
                ..Default::default()
            },
            BoardLayout::RomMapperRam => ChipRoleConfig {
                u1: Some(ChipRole::Rom),
                u2: Some(ChipRole::Mapper),
                u3: Some(ChipRole::Ram),
                u4: Some(ChipRole::RamBackup),
                ..Default::default()
            },
            BoardLayout::RomMapperRamXtal => ChipRoleConfig {
                u1: Some(ChipRole::Rom),
                u2: Some(ChipRole::Mapper),
                u3: Some(ChipRole::Ram),
                u4: Some(ChipRole::RamBackup),
                x1: Some(ChipRole::Crystal),
                ..Default::default()
            },
            BoardLayout::Mbc2 => ChipRoleConfig {
                u1: Some(ChipRole::Rom),
                u2: Some(ChipRole::Mapper),
                u3: Some(ChipRole::RamBackup),
                ..Default::default()
            },
            BoardLayout::Mbc6 => ChipRoleConfig {
                u1: Some(ChipRole::Mapper),
                u2: Some(ChipRole::Rom),
                u3: Some(ChipRole::Flash),
                u4: Some(ChipRole::Ram),
                u5: Some(ChipRole::RamBackup),
                ..Default::default()
            },
            BoardLayout::Mbc7 => ChipRoleConfig {
                u1: Some(ChipRole::Mapper),
                u2: Some(ChipRole::Rom),
                u3: Some(ChipRole::Eeprom),
                u4: Some(ChipRole::Accelerometer),
                ..Default::default()
            },
            BoardLayout::Type15 => ChipRoleConfig {
                u1: Some(ChipRole::Rom),
                u2: Some(ChipRole::Mapper),
                u3: Some(ChipRole::Ram),
                u4: Some(ChipRole::RamBackup),
                u5: Some(ChipRole::Rom),
                u6: Some(ChipRole::LineDecoder),
                ..Default::default()
            },
            BoardLayout::Huc3 => ChipRoleConfig {
                u1: Some(ChipRole::Rom),
                u2: Some(ChipRole::Mapper),
                u3: Some(ChipRole::Ram),
                u4: Some(ChipRole::RamBackup),
                u5: Some(ChipRole::HexInverter),
                x1: Some(ChipRole::Crystal),
                ..Default::default()
            },
            BoardLayout::Tama => ChipRoleConfig {
                u1: Some(ChipRole::Tama),
                u2: Some(ChipRole::Tama),
                u3: Some(ChipRole::Tama),
                u4: Some(ChipRole::Unknown),
                u5: Some(ChipRole::RamBackup),
                x1: Some(ChipRole::Crystal),
                ..Default::default()
            },
        }
    }
}

} // verus!
