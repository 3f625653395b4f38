//! Item, trigger-area and character identifiers, with their display names.
use vstd::prelude::*;

verus! {

/// The identifier of an item.
#[derive(Debug, Clone, Copy, PartialEq, Eq, Hash, Structural)]
pub enum Item {
    Empty,
    Knife,
    HandgunLeon,
    HandgunClaire,
    CustomHandgun,
    Magnum,
    CustomMagnum,
    Shotgun,
    CustomShotgun,
    GrenadeLauncherExplosive,
    GrenadeLauncherFlame,
    GrenadeLauncherAcid,
    Bowgun,
    ColtSaa,
    Sparkshot,
    SubMachinegun,
    Flamethrower,
    RocketLauncher,
    GatlingGun,
    Beretta,
    HandgunAmmo,
    ShotgunShells,
    MagnumRounds,
    FuelTank,
    ExplosiveRounds,
    FlameRounds,
    AcidRounds,
    SmgAmmo,
    SsBattery,
    BowgunDarts,
    InkRibbon,
    SmallKey,
    HandgunParts,
    MagnumParts,
    ShotgunParts,
    FirstAidSpray,
    AntiVirusBomb,
    ChemicalAcW24,
    GreenHerb,
    RedHerb,
    BlueHerb,
    GGHerb,
    RGHerb,
    BGHerb,
    GGGHerb,
    GGBHerb,
    RGBHerb,
    Lighter,
    Lockpick,
    PhotoSherry,
    ValveHandle,
    RedJewel,
    RedKeycard,
    BlueKeycard,
    SerpentStone,
    JaguarStone,
    JaguarStoneL,
    JaguarStoneR,
    EagleStone,
    RookPlug,
    QueenPlug,
    KnightPlug,
    KingPlug,
    WeaponBoxKey,
    Detonator,
    Explosive,
    DetonatorAndExplosive,
    SquareCrank,
    FilmA,
    FilmB,
    FilmC,
    UnicornMedal,
    EagleMedal,
    WolfMedal,
    Cogwheel,
    ManholeOpener,
    MainFuse,
    FuseCase,
    Vaccine,
    VaccineBase,
    FilmD,
    VaccineCart,
    GVirus,
    SpecialKey,
    JointPlugBlue,
    JointPlugRed,
    Cord,
    PhotoAda,
    CabinKey,
    SpadeKey,
    DiamondKey,
    HeartKey,
    ClubKey,
    DownKey,
    UpKey,
    PowerRoomKey,
    MoDisk,
    UmbrellaKeycard,
    MasterKey,
    PlatformKey,
}

impl Item {
    /// The number that stands for the value in the game's data.
    pub open spec fn spec_id(self) -> u16 {
        match self {
            Item::Empty => 0,
            Item::Knife => 1,
            Item::HandgunLeon => 2,
            Item::HandgunClaire => 3,
            Item::CustomHandgun => 4,
            Item::Magnum => 5,
            Item::CustomMagnum => 6,
            Item::Shotgun => 7,
            Item::CustomShotgun => 8,
            Item::GrenadeLauncherExplosive => 9,
            Item::GrenadeLauncherFlame => 10,
            Item::GrenadeLauncherAcid => 11,
            Item::Bowgun => 12,
            Item::ColtSaa => 13,
            Item::Sparkshot => 14,
            Item::SubMachinegun => 15,
            Item::Flamethrower => 16,
            Item::RocketLauncher => 17,
            Item::GatlingGun => 18,
            Item::Beretta => 19,
            Item::HandgunAmmo => 20,
            Item::ShotgunShells => 21,
            Item::MagnumRounds => 22,
            Item::FuelTank => 23,
            Item::ExplosiveRounds => 24,
            Item::FlameRounds => 25,
            Item::AcidRounds => 26,
            Item::SmgAmmo => 27,
            Item::SsBattery => 28,
            Item::BowgunDarts => 29,
            Item::InkRibbon => 30,
            Item::SmallKey => 31,
            Item::HandgunParts => 32,
            Item::MagnumParts => 33,
            Item::ShotgunParts => 34,
            Item::FirstAidSpray => 35,
            Item::AntiVirusBomb => 36,
            Item::ChemicalAcW24 => 37,
            Item::GreenHerb => 38,
            Item::RedHerb => 39,
            Item::BlueHerb => 40,
            Item::GGHerb => 41,
            Item::RGHerb => 42,
            Item::BGHerb => 43,
            Item::GGGHerb => 44,
            Item::GGBHerb => 45,
            Item::RGBHerb => 46,
            Item::Lighter => 47,
            Item::Lockpick => 48,
            Item::PhotoSherry => 49,
            Item::ValveHandle => 50,
            Item::RedJewel => 51,
            Item::RedKeycard => 52,
            Item::BlueKeycard => 53,
            Item::SerpentStone => 54,
            Item::JaguarStone => 55,
            Item::JaguarStoneL => 56,
            Item::JaguarStoneR => 57,
            Item::EagleStone => 58,
            Item::RookPlug => 59,
            Item::QueenPlug => 60,
            Item::KnightPlug => 61,
            Item::KingPlug => 62,
            Item::WeaponBoxKey => 63,
            Item::Detonator => 64,
            Item::Explosive => 65,
            Item::DetonatorAndExplosive => 66,
            Item::SquareCrank => 67,
            Item::FilmA => 68,
            Item::FilmB => 69,
            Item::FilmC => 70,
            Item::UnicornMedal => 71,
            Item::EagleMedal => 72,
            Item::WolfMedal => 73,
            Item::Cogwheel => 74,
            Item::ManholeOpener => 75,
            Item::MainFuse => 76,
            Item::FuseCase => 77,
            Item::Vaccine => 78,
            Item::VaccineBase => 79,
            Item::FilmD => 80,
            Item::VaccineCart => 81,
            Item::GVirus => 82,
            Item::SpecialKey => 83,
            Item::JointPlugBlue => 84,
            Item::JointPlugRed => 85,
            Item::Cord => 86,
            Item::PhotoAda => 87,
            Item::CabinKey => 88,
            Item::SpadeKey => 89,
            Item::DiamondKey => 90,
            Item::HeartKey => 91,
            Item::ClubKey => 92,
            Item::DownKey => 93,
            Item::UpKey => 94,
            Item::PowerRoomKey => 95,
            Item::MoDisk => 96,
            Item::UmbrellaKeycard => 97,
            Item::MasterKey => 98,
            Item::PlatformKey => 99,
        }
    }

    pub fn id(&self) -> (r: u16)
        ensures
            r == self.spec_id(),
    {
        match self {
            Item::Empty => 0,
            Item::Knife => 1,
            Item::HandgunLeon => 2,
            Item::HandgunClaire => 3,
            Item::CustomHandgun => 4,
            Item::Magnum => 5,
            Item::CustomMagnum => 6,
            Item::Shotgun => 7,
            Item::CustomShotgun => 8,
            Item::GrenadeLauncherExplosive => 9,
            Item::GrenadeLauncherFlame => 10,
            Item::GrenadeLauncherAcid => 11,
            Item::Bowgun => 12,
            Item::ColtSaa => 13,
            Item::Sparkshot => 14,
            Item::SubMachinegun => 15,
            Item::Flamethrower => 16,
            Item::RocketLauncher => 17,
            Item::GatlingGun => 18,
            Item::Beretta => 19,
            Item::HandgunAmmo => 20,
            Item::ShotgunShells => 21,
            Item::MagnumRounds => 22,
            Item::FuelTank => 23,
            Item::ExplosiveRounds => 24,
            Item::FlameRounds => 25,
            Item::AcidRounds => 26,
            Item::SmgAmmo => 27,
            Item::SsBattery => 28,
            Item::BowgunDarts => 29,
            Item::InkRibbon => 30,
            Item::SmallKey => 31,
            Item::HandgunParts => 32,
            Item::MagnumParts => 33,
            Item::ShotgunParts => 34,
            Item::FirstAidSpray => 35,
            Item::AntiVirusBomb => 36,
            Item::ChemicalAcW24 => 37,
            Item::GreenHerb => 38,
            Item::RedHerb => 39,
            Item::BlueHerb => 40,
            Item::GGHerb => 41,
            Item::RGHerb => 42,
            Item::BGHerb => 43,
            Item::GGGHerb => 44,
            Item::GGBHerb => 45,
            Item::RGBHerb => 46,
            Item::Lighter => 47,
            Item::Lockpick => 48,
            Item::PhotoSherry => 49,
            Item::ValveHandle => 50,
            Item::RedJewel => 51,
            Item::RedKeycard => 52,
            Item::BlueKeycard => 53,
            Item::SerpentStone => 54,
            Item::JaguarStone => 55,
            Item::JaguarStoneL => 56,
            Item::JaguarStoneR => 57,
            Item::EagleStone => 58,
            Item::RookPlug => 59,
            Item::QueenPlug => 60,
            Item::KnightPlug => 61,
            Item::KingPlug => 62,
            Item::WeaponBoxKey => 63,
            Item::Detonator => 64,
            Item::Explosive => 65,
            Item::DetonatorAndExplosive => 66,
            Item::SquareCrank => 67,
            Item::FilmA => 68,
            Item::FilmB => 69,
            Item::FilmC => 70,
            Item::UnicornMedal => 71,
            Item::EagleMedal => 72,
            Item::WolfMedal => 73,
            Item::Cogwheel => 74,
            Item::ManholeOpener => 75,
            Item::MainFuse => 76,
            Item::FuseCase => 77,
            Item::Vaccine => 78,
            Item::VaccineBase => 79,
            Item::FilmD => 80,
            Item::VaccineCart => 81,
            Item::GVirus => 82,
            Item::SpecialKey => 83,
            Item::JointPlugBlue => 84,
            Item::JointPlugRed => 85,
            Item::Cord => 86,
            Item::PhotoAda => 87,
            Item::CabinKey => 88,
            Item::SpadeKey => 89,
            Item::DiamondKey => 90,
            Item::HeartKey => 91,
            Item::ClubKey => 92,
            Item::DownKey => 93,
            Item::UpKey => 94,
            Item::PowerRoomKey => 95,
            Item::MoDisk => 96,
            Item::UmbrellaKeycard => 97,
            Item::MasterKey => 98,
            Item::PlatformKey => 99,
        }
    }

    /// The value that a number stands for; `None` for a number that stands for none.
    pub fn from_id(id: u16) -> (r: Option<Item>)
        ensures
            r matches Some(v) ==> v.spec_id() == id,
            r is None ==> forall|v: Item| v.spec_id() != id,
    {
        match id {
            0 => Some(Item::Empty),
            1 => Some(Item::Knife),
            2 => Some(Item::HandgunLeon),
            3 => Some(Item::HandgunClaire),
            4 => Some(Item::CustomHandgun),
            5 => Some(Item::Magnum),
            6 => Some(Item::CustomMagnum),
            7 => Some(Item::Shotgun),
            8 => Some(Item::CustomShotgun),
            9 => Some(Item::GrenadeLauncherExplosive),
            10 => Some(Item::GrenadeLauncherFlame),
            11 => Some(Item::GrenadeLauncherAcid),
            12 => Some(Item::Bowgun),
            13 => Some(Item::ColtSaa),
            14 => Some(Item::Sparkshot),
            15 => Some(Item::SubMachinegun),
            16 => Some(Item::Flamethrower),
            17 => Some(Item::RocketLauncher),
            18 => Some(Item::GatlingGun),
            19 => Some(Item::Beretta),
            20 => Some(Item::HandgunAmmo),
            21 => Some(Item::ShotgunShells),
            22 => Some(Item::MagnumRounds),
            23 => Some(Item::FuelTank),
            24 => Some(Item::ExplosiveRounds),
            25 => Some(Item::FlameRounds),
            26 => Some(Item::AcidRounds),
            27 => Some(Item::SmgAmmo),
            28 => Some(Item::SsBattery),
            29 => Some(Item::BowgunDarts),
            30 => Some(Item::InkRibbon),
            31 => Some(Item::SmallKey),
            32 => Some(Item::HandgunParts),
            33 => Some(Item::MagnumParts),
            34 => Some(Item::ShotgunParts),
            35 => Some(Item::FirstAidSpray),
            36 => Some(Item::AntiVirusBomb),
            37 => Some(Item::ChemicalAcW24),
            38 => Some(Item::GreenHerb),
            39 => Some(Item::RedHerb),
            40 => Some(Item::BlueHerb),
            41 => Some(Item::GGHerb),
            42 => Some(Item::RGHerb),
            43 => Some(Item::BGHerb),
            44 => Some(Item::GGGHerb),
            45 => Some(Item::GGBHerb),
            46 => Some(Item::RGBHerb),
            47 => Some(Item::Lighter),
            48 => Some(Item::Lockpick),
            49 => Some(Item::PhotoSherry),
            50 => Some(Item::ValveHandle),
            51 => Some(Item::RedJewel),
            52 => Some(Item::RedKeycard),
            53 => Some(Item::BlueKeycard),
            54 => Some(Item::SerpentStone),
            55 => Some(Item::JaguarStone),
            56 => Some(Item::JaguarStoneL),
            57 => Some(Item::JaguarStoneR),
            58 => Some(Item::EagleStone),
            59 => Some(Item::RookPlug),
            60 => Some(Item::QueenPlug),
            61 => Some(Item::KnightPlug),
            62 => Some(Item::KingPlug),
            63 => Some(Item::WeaponBoxKey),
            64 => Some(Item::Detonator),
            65 => Some(Item::Explosive),
            66 => Some(Item::DetonatorAndExplosive),
            67 => Some(Item::SquareCrank),
            68 => Some(Item::FilmA),
            69 => Some(Item::FilmB),
            70 => Some(Item::FilmC),
            71 => Some(Item::UnicornMedal),
            72 => Some(Item::EagleMedal),
            73 => Some(Item::WolfMedal),
            74 => Some(Item::Cogwheel),
            75 => Some(Item::ManholeOpener),
            76 => Some(Item::MainFuse),
            77 => Some(Item::FuseCase),
            78 => Some(Item::Vaccine),
            79 => Some(Item::VaccineBase),
            80 => Some(Item::FilmD),
            81 => Some(Item::VaccineCart),
            82 => Some(Item::GVirus),
            83 => Some(Item::SpecialKey),
            84 => Some(Item::JointPlugBlue),
            85 => Some(Item::JointPlugRed),
            86 => Some(Item::Cord),
            87 => Some(Item::PhotoAda),
            88 => Some(Item::CabinKey),
            89 => Some(Item::SpadeKey),
            90 => Some(Item::DiamondKey),
            91 => Some(Item::HeartKey),
            92 => Some(Item::ClubKey),
            93 => Some(Item::DownKey),
            94 => Some(Item::UpKey),
            95 => Some(Item::PowerRoomKey),
            96 => Some(Item::MoDisk),
            97 => Some(Item::UmbrellaKeycard),
            98 => Some(Item::MasterKey),
            99 => Some(Item::PlatformKey),
            _ => None,
        }
    }

    /// The display name.
    pub open spec fn spec_name(self) -> Seq<char> {
        match self {
            Item::Empty => "Empty"@,
            Item::Knife => "Knife"@,
            Item::HandgunLeon => "Handgun (Leon)"@,
            Item::HandgunClaire => "Handgun (Claire)"@,
            Item::CustomHandgun => "Custom Handgun"@,
            Item::Magnum => "Magnum"@,
            Item::CustomMagnum => "Custom Magnum"@,
            Item::Shotgun => "Shotgun"@,
            Item::CustomShotgun => "Custom Shotgun"@,
            Item::GrenadeLauncherExplosive => "Grenade Launcher (Explosive)"@,
            Item::GrenadeLauncherFlame => "Grenade Launcher (Flame)"@,
            Item::GrenadeLauncherAcid => "Grenade Launcher (Acid)"@,
            Item::Bowgun => "Bowgun"@,
            Item::ColtSaa => "Colt SAA"@,
            Item::Sparkshot => "Sparkshot"@,
            Item::SubMachinegun => "Sub Machinegun"@,
            Item::Flamethrower => "Flamethrower"@,
            Item::RocketLauncher => "Rocket Launcher"@,
            Item::GatlingGun => "Gatling Gun"@,
            Item::Beretta => "Beretta"@,
            Item::HandgunAmmo => "Handgun Ammo"@,
            Item::ShotgunShells => "Shotgun Shells"@,
            Item::MagnumRounds => "Magnum Rounds"@,
            Item::FuelTank => "Fuel Tank"@,
            Item::ExplosiveRounds => "Explosive Rounds"@,
            Item::FlameRounds => "Flame Rounds"@,
            Item::AcidRounds => "Acid Rounds"@,
            Item::SmgAmmo => "SMG Ammo"@,
            Item::SsBattery => "SS Battery"@,
            Item::BowgunDarts => "Bowgun Darts"@,
            Item::InkRibbon => "Ink Ribbon"@,
            Item::SmallKey => "Small Key"@,
            Item::HandgunParts => "Handgun Parts"@,
            Item::MagnumParts => "Magnum Parts"@,
            Item::ShotgunParts => "Shotgun Parts"@,
            Item::FirstAidSpray => "First Aid Spray"@,
            Item::AntiVirusBomb => "Anti Virus Bomb"@,
            Item::ChemicalAcW24 => "Chemical AC-W24"@,
            Item::GreenHerb => "Green Herb"@,
            Item::RedHerb => "Red Herb"@,
            Item::BlueHerb => "Blue Herb"@,
            Item::GGHerb => "Mixed Herbs (G+G)"@,
            Item::RGHerb => "Mixed Herbs (R+G)"@,
            Item::BGHerb => "Mixed Herbs (B+G)"@,
            Item::GGGHerb => "Mixed Herbs (G+G+G)"@,
            Item::GGBHerb => "Mixed Herbs (G+G+B)"@,
            Item::RGBHerb => "Mixed Herbs (R+G+B)"@,
            Item::Lighter => "Lighter"@,
            Item::Lockpick => "Lockpick"@,
            Item::PhotoSherry => "Photo (Sherry)"@,
            Item::ValveHandle => "Valve Handle"@,
            Item::RedJewel => "Red Jewel"@,
            Item::RedKeycard => "Red Keycard"@,
            Item::BlueKeycard => "Blue Keycard"@,
            Item::SerpentStone => "Serpent Stone"@,
            Item::JaguarStone => "Jaguar Stone"@,
            Item::JaguarStoneL => "Jaguar Stone L"@,
            Item::JaguarStoneR => "Jaguar Stone R"@,
            Item::EagleStone => "Eagle Stone"@,
            Item::RookPlug => "Rook Plug"@,
            Item::QueenPlug => "Queen Plug"@,
            Item::KnightPlug => "Knight Plug"@,
            Item::KingPlug => "King Plug"@,
            Item::WeaponBoxKey => "Weapon Box Key"@,
            Item::Detonator => "Detonator"@,
            Item::Explosive => "Explosive"@,
            Item::DetonatorAndExplosive => "Detonator and Explosive"@,
            Item::SquareCrank => "Square Crank"@,
            Item::FilmA => "Film A"@,
            Item::FilmB => "Film B"@,
            Item::FilmC => "Film C"@,
            Item::UnicornMedal => "Unicorn Medal"@,
            Item::EagleMedal => "Eagle Medal"@,
            Item::WolfMedal => "Wolf Medal"@,
            Item::Cogwheel => "Cogwheel"@,
            Item::ManholeOpener => "Manhole Opener"@,
            Item::MainFuse => "Main Fuse"@,
            Item::FuseCase => "Fuse Case"@,
            Item::Vaccine => "Vaccine"@,
            Item::VaccineBase => "Vaccine Base"@,
            Item::FilmD => "Film D"@,
            Item::VaccineCart => "Vaccine Cart"@,
            Item::GVirus => "G-Virus"@,
            Item::SpecialKey => "Special Key"@,
            Item::JointPlugBlue => "Joint Plug Blue"@,
            Item::JointPlugRed => "Joint Plug Red"@,
            Item::Cord => "Cord"@,
            Item::PhotoAda => "Photo (Ada)"@,
            Item::CabinKey => "Cabin Key"@,
            Item::SpadeKey => "Spade Key"@,
            Item::DiamondKey => "Diamond Key"@,
            Item::HeartKey => "Heart Key"@,
            Item::ClubKey => "Club Key"@,
            Item::DownKey => "Down Key"@,
            Item::UpKey => "Up Key"@,
            Item::PowerRoomKey => "Power Room Key"@,
            Item::MoDisk => "MO Disk"@,
            Item::UmbrellaKeycard => "Umbrella Keycard"@,
            Item::MasterKey => "Master Key"@,
            Item::PlatformKey => "Platform Key"@,
        }
    }

    /// The display name.
    pub fn name(&self) -> (r: &'static str)
        ensures
            r@ == self.spec_name(),
    {
        match self {
            Item::Empty => "Empty",
            Item::Knife => "Knife",
            Item::HandgunLeon => "Handgun (Leon)",
            Item::HandgunClaire => "Handgun (Claire)",
            Item::CustomHandgun => "Custom Handgun",
            Item::Magnum => "Magnum",
            Item::CustomMagnum => "Custom Magnum",
            Item::Shotgun => "Shotgun",
            Item::CustomShotgun => "Custom Shotgun",
            Item::GrenadeLauncherExplosive => "Grenade Launcher (Explosive)",
            Item::GrenadeLauncherFlame => "Grenade Launcher (Flame)",
            Item::GrenadeLauncherAcid => "Grenade Launcher (Acid)",
            Item::Bowgun => "Bowgun",
            Item::ColtSaa => "Colt SAA",
            Item::Sparkshot => "Sparkshot",
            Item::SubMachinegun => "Sub Machinegun",
            Item::Flamethrower => "Flamethrower",
            Item::RocketLauncher => "Rocket Launcher",
            Item::GatlingGun => "Gatling Gun",
            Item::Beretta => "Beretta",
            Item::HandgunAmmo => "Handgun Ammo",
            Item::ShotgunShells => "Shotgun Shells",
            Item::MagnumRounds => "Magnum Rounds",
            Item::FuelTank => "Fuel Tank",
            Item::ExplosiveRounds => "Explosive Rounds",
            Item::FlameRounds => "Flame Rounds",
            Item::AcidRounds => "Acid Rounds",
            Item::SmgAmmo => "SMG Ammo",
            Item::SsBattery => "SS Battery",
            Item::BowgunDarts => "Bowgun Darts",
            Item::InkRibbon => "Ink Ribbon",
            Item::SmallKey => "Small Key",
            Item::HandgunParts => "Handgun Parts",
            Item::MagnumParts => "Magnum Parts",
            Item::ShotgunParts => "Shotgun Parts",
            Item::FirstAidSpray => "First Aid Spray",
            Item::AntiVirusBomb => "Anti Virus Bomb",
            Item::ChemicalAcW24 => "Chemical AC-W24",
            Item::GreenHerb => "Green Herb",
            Item::RedHerb => "Red Herb",
            Item::BlueHerb => "Blue Herb",
            Item::GGHerb => "Mixed Herbs (G+G)",
            Item::RGHerb => "Mixed Herbs (R+G)",
            Item::BGHerb => "Mixed Herbs (B+G)",
            Item::GGGHerb => "Mixed Herbs (G+G+G)",
            Item::GGBHerb => "Mixed Herbs (G+G+B)",
            Item::RGBHerb => "Mixed Herbs (R+G+B)",
            Item::Lighter => "Lighter",
            Item::Lockpick => "Lockpick",
            Item::PhotoSherry => "Photo (Sherry)",
            Item::ValveHandle => "Valve Handle",
            Item::RedJewel => "Red Jewel",
            Item::RedKeycard => "Red Keycard",
            Item::BlueKeycard => "Blue Keycard",
            Item::SerpentStone => "Serpent Stone",
            Item::JaguarStone => "Jaguar Stone",
            Item::JaguarStoneL => "Jaguar Stone L",
            Item::JaguarStoneR => "Jaguar Stone R",
            Item::EagleStone => "Eagle Stone",
            Item::RookPlug => "Rook Plug",
            Item::QueenPlug => "Queen Plug",
            Item::KnightPlug => "Knight Plug",
            Item::KingPlug => "King Plug",
            Item::WeaponBoxKey => "Weapon Box Key",
            Item::Detonator => "Detonator",
            Item::Explosive => "Explosive",
            Item::DetonatorAndExplosive => "Detonator and Explosive",
            Item::SquareCrank => "Square Crank",
            Item::FilmA => "Film A",
            Item::FilmB => "Film B",
            Item::FilmC => "Film C",
            Item::UnicornMedal => "Unicorn Medal",
            Item::EagleMedal => "Eagle Medal",
            Item::WolfMedal => "Wolf Medal",
            Item::Cogwheel => "Cogwheel",
            Item::ManholeOpener => "Manhole Opener",
            Item::MainFuse => "Main Fuse",
            Item::FuseCase => "Fuse Case",
            Item::Vaccine => "Vaccine",
            Item::VaccineBase => "Vaccine Base",
            Item::FilmD => "Film D",
            Item::VaccineCart => "Vaccine Cart",
            Item::GVirus => "G-Virus",
            Item::SpecialKey => "Special Key",
            Item::JointPlugBlue => "Joint Plug Blue",
            Item::JointPlugRed => "Joint Plug Red",
            Item::Cord => "Cord",
            Item::PhotoAda => "Photo (Ada)",
            Item::CabinKey => "Cabin Key",
            Item::SpadeKey => "Spade Key",
            Item::DiamondKey => "Diamond Key",
            Item::HeartKey => "Heart Key",
            Item::ClubKey => "Club Key",
            Item::DownKey => "Down Key",
            Item::UpKey => "Up Key",
            Item::PowerRoomKey => "Power Room Key",
            Item::MoDisk => "MO Disk",
            Item::UmbrellaKeycard => "Umbrella Keycard",
            Item::MasterKey => "Master Key",
            Item::PlatformKey => "Platform Key",
        }
    }

    /// The weapons.
    pub open spec fn spec_is_weapon(self) -> bool {
        self == Item::Knife || self == Item::HandgunLeon || self == Item::HandgunClaire || self == Item::CustomHandgun || self == Item::Magnum || self == Item::CustomMagnum || self == Item::Shotgun || self == Item::CustomShotgun || self == Item::GrenadeLauncherExplosive || self == Item::GrenadeLauncherFlame || self == Item::GrenadeLauncherAcid || self == Item::Bowgun || self == Item::ColtSaa || self == Item::Sparkshot || self == Item::SubMachinegun || self == Item::Flamethrower || self == Item::RocketLauncher || self == Item::GatlingGun || self == Item::Beretta
    }

    pub fn is_weapon(&self) -> (r: bool)
        ensures
            r == self.spec_is_weapon(),
    {
        match self {
            Item::Knife => true,
            Item::HandgunLeon => true,
            Item::HandgunClaire => true,
            Item::CustomHandgun => true,
            Item::Magnum => true,
            Item::CustomMagnum => true,
            Item::Shotgun => true,
            Item::CustomShotgun => true,
            Item::GrenadeLauncherExplosive => true,
            Item::GrenadeLauncherFlame => true,
            Item::GrenadeLauncherAcid => true,
            Item::Bowgun => true,
            Item::ColtSaa => true,
            Item::Sparkshot => true,
            Item::SubMachinegun => true,
            Item::Flamethrower => true,
            Item::RocketLauncher => true,
            Item::GatlingGun => true,
            Item::Beretta => true,
            _ => false,
        }
    }
}

/// The type of a trigger area.
#[derive(Debug, Clone, Copy, PartialEq, Eq, Hash, Structural)]
pub enum SceType {
    Auto,
    Door,
    Item,
    Normal,
    Message,
    Event,
    FlagChg,
    Water,
    Move,
    Save,
    ItemBox,
    Damage,
    Status,
    Hikidashi,
    Windows,
    Unknown,
}

impl SceType {
    /// The number that stands for the value in the game's data.
    pub open spec fn spec_id(self) -> u8 {
        match self {
            SceType::Auto => 0,
            SceType::Door => 1,
            SceType::Item => 2,
            SceType::Normal => 3,
            SceType::Message => 4,
            SceType::Event => 5,
            SceType::FlagChg => 6,
            SceType::Water => 7,
            SceType::Move => 8,
            SceType::Save => 9,
            SceType::ItemBox => 10,
            SceType::Damage => 11,
            SceType::Status => 12,
            SceType::Hikidashi => 13,
            SceType::Windows => 14,
            SceType::Unknown => 255,
        }
    }

    pub fn id(&self) -> (r: u8)
        ensures
            r == self.spec_id(),
    {
        match self {
            SceType::Auto => 0,
            SceType::Door => 1,
            SceType::Item => 2,
            SceType::Normal => 3,
            SceType::Message => 4,
            SceType::Event => 5,
            SceType::FlagChg => 6,
            SceType::Water => 7,
            SceType::Move => 8,
            SceType::Save => 9,
            SceType::ItemBox => 10,
            SceType::Damage => 11,
            SceType::Status => 12,
            SceType::Hikidashi => 13,
            SceType::Windows => 14,
            SceType::Unknown => 255,
        }
    }

    /// The value that a number stands for; `Unknown` for a number that stands for none.
    pub fn from_id(id: u8) -> (r: SceType)
        ensures
            r.spec_id() == id || (r == SceType::Unknown && forall|v: SceType| v.spec_id() != id),
    {
        match id {
            0 => SceType::Auto,
            1 => SceType::Door,
            2 => SceType::Item,
            3 => SceType::Normal,
            4 => SceType::Message,
            5 => SceType::Event,
            6 => SceType::FlagChg,
            7 => SceType::Water,
            8 => SceType::Move,
            9 => SceType::Save,
            10 => SceType::ItemBox,
            11 => SceType::Damage,
            12 => SceType::Status,
            13 => SceType::Hikidashi,
            14 => SceType::Windows,
            _ => SceType::Unknown,
        }
    }

    /// The display name.
    pub open spec fn spec_name(self) -> Seq<char> {
        match self {
            SceType::Auto => "Auto"@,
            SceType::Door => "Door"@,
            SceType::Item => "Item"@,
            SceType::Normal => "Normal"@,
            SceType::Message => "Message"@,
            SceType::Event => "Event"@,
            SceType::FlagChg => "Flag Change"@,
            SceType::Water => "Water"@,
            SceType::Move => "Move"@,
            SceType::Save => "Save"@,
            SceType::ItemBox => "Item Box"@,
            SceType::Damage => "Damage"@,
            SceType::Status => "Status"@,
            SceType::Hikidashi => "Hikidashi"@,
            SceType::Windows => "Windows"@,
            SceType::Unknown => "Unknown"@,
        }
    }

    /// The display name.
    pub fn name(&self) -> (r: &'static str)
        ensures
            r@ == self.spec_name(),
    {
        match self {
            SceType::Auto => "Auto",
            SceType::Door => "Door",
            SceType::Item => "Item",
            SceType::Normal => "Normal",
            SceType::Message => "Message",
            SceType::Event => "Event",
            SceType::FlagChg => "Flag Change",
            SceType::Water => "Water",
            SceType::Move => "Move",
            SceType::Save => "Save",
            SceType::ItemBox => "Item Box",
            SceType::Damage => "Damage",
            SceType::Status => "Status",
            SceType::Hikidashi => "Hikidashi",
            SceType::Windows => "Windows",
            SceType::Unknown => "Unknown",
        }
    }

    /// The types that the player triggers by an action.
    pub open spec fn spec_is_trigger(self) -> bool {
        self == SceType::Door || self == SceType::Event || self == SceType::FlagChg || self == SceType::Item || self == SceType::ItemBox || self == SceType::Save || self == SceType::Damage || self == SceType::Message
    }

    pub fn is_trigger(&self) -> (r: bool)
        ensures
            r == self.spec_is_trigger(),
    {
        match self {
            SceType::Door => true,
            SceType::Event => true,
            SceType::FlagChg => true,
            SceType::Item => true,
            SceType::ItemBox => true,
            SceType::Save => true,
            SceType::Damage => true,
            SceType::Message => true,
            _ => false,
        }
    }
}

/// The identifier of a character type.
#[derive(Debug, Clone, Copy, PartialEq, Eq, Hash, Structural)]
pub enum CharacterId {
    Leon,
    Claire,
    Unknown2,
    Unknown3,
    LeonBandaged,
    ClaireBlackTop,
    Unknown6,
    Unknown7,
    LeonTankTop,
    ClaireBiker,
    LeonSkullJacket,
    Chris,
    Hunk,
    Tofu,
    Ada,
    Sherry,
    ZombiePoliceHat,
    Brad,
    ZombieTornShirt,
    Misty,
    Unknown20,
    ZombieLabWhite,
    ZombieLabYellow,
    NakedZombie,
    ZombieYellowShirt,
    Unknown25,
    Unknown26,
    Unknown27,
    Unknown28,
    Unknown29,
    HeadlessZombieYellowShirt,
    ZombieRandom,
    Dog,
    Crow,
    LickerRed,
    Croc,
    LickerBlack,
    Spider,
    SpiderBaby,
    GYoung,
    GAdult,
    Roach,
    MrX,
    SuperX,
    Unknown44,
    Hands,
    Ivy,
    Tentacle,
    G1,
    G2,
    Unknown50,
    G3,
    G4,
    Unknown53,
    G5,
    G5Tentacle,
    Unknown56,
    PoisonIvy,
    Moth,
    Larva,
    Unknown60,
    Unknown61,
    FuseArm,
    FuseHousing,
    Irons,
    AdaNpc,
    IronsTorso,
    AdaWounded,
    BenDead,
    SherryNpc,
    Ben,
    Annette,
    Kendo,
    Unknown73,
    Marvin,
    MayorsDaughter,
    Unknown76,
    Unknown77,
    Unknown78,
    SherryVest,
    LeonNpc,
    ClaireNpc,
    Unknown82,
    Unknown83,
    LeonBandagedNpc,
    Unknown,
}

impl CharacterId {
    /// The number that stands for the value in the game's data.
    pub open spec fn spec_id(self) -> u8 {
        match self {
            CharacterId::Leon => 0,
            CharacterId::Claire => 1,
            CharacterId::Unknown2 => 2,
            CharacterId::Unknown3 => 3,
            CharacterId::LeonBandaged => 4,
            CharacterId::ClaireBlackTop => 5,
            CharacterId::Unknown6 => 6,
            CharacterId::Unknown7 => 7,
            CharacterId::LeonTankTop => 8,
            CharacterId::ClaireBiker => 9,
            CharacterId::LeonSkullJacket => 10,
            CharacterId::Chris => 11,
            CharacterId::Hunk => 12,
            CharacterId::Tofu => 13,
            CharacterId::Ada => 14,
            CharacterId::Sherry => 15,
            CharacterId::ZombiePoliceHat => 16,
            CharacterId::Brad => 17,
            CharacterId::ZombieTornShirt => 18,
            CharacterId::Misty => 19,
            CharacterId::Unknown20 => 20,
            CharacterId::ZombieLabWhite => 21,
            CharacterId::ZombieLabYellow => 22,
            CharacterId::NakedZombie => 23,
            CharacterId::ZombieYellowShirt => 24,
            CharacterId::Unknown25 => 25,
            CharacterId::Unknown26 => 26,
            CharacterId::Unknown27 => 27,
            CharacterId::Unknown28 => 28,
            CharacterId::Unknown29 => 29,
            CharacterId::HeadlessZombieYellowShirt => 30,
            CharacterId::ZombieRandom => 31,
            CharacterId::Dog => 32,
            CharacterId::Crow => 33,
            CharacterId::LickerRed => 34,
            CharacterId::Croc => 35,
            CharacterId::LickerBlack => 36,
            CharacterId::Spider => 37,
            CharacterId::SpiderBaby => 38,
            CharacterId::GYoung => 39,
            CharacterId::GAdult => 40,
            CharacterId::Roach => 41,
            CharacterId::MrX => 42,
            CharacterId::SuperX => 43,
            CharacterId::Unknown44 => 44,
            CharacterId::Hands => 45,
            CharacterId::Ivy => 46,
            CharacterId::Tentacle => 47,
            CharacterId::G1 => 48,
            CharacterId::G2 => 49,
            CharacterId::Unknown50 => 50,
            CharacterId::G3 => 51,
            CharacterId::G4 => 52,
            CharacterId::Unknown53 => 53,
            CharacterId::G5 => 54,
            CharacterId::G5Tentacle => 55,
            CharacterId::Unknown56 => 56,
            CharacterId::PoisonIvy => 57,
            CharacterId::Moth => 58,
            CharacterId::Larva => 59,
            CharacterId::Unknown60 => 60,
            CharacterId::Unknown61 => 61,
            CharacterId::FuseArm => 62,
            CharacterId::FuseHousing => 63,
            CharacterId::Irons => 64,
            CharacterId::AdaNpc => 65,
            CharacterId::IronsTorso => 66,
            CharacterId::AdaWounded => 67,
            CharacterId::BenDead => 68,
            CharacterId::SherryNpc => 69,
            CharacterId::Ben => 70,
            CharacterId::Annette => 71,
            CharacterId::Kendo => 72,
            CharacterId::Unknown73 => 73,
            CharacterId::Marvin => 74,
            CharacterId::MayorsDaughter => 75,
            CharacterId::Unknown76 => 76,
            CharacterId::Unknown77 => 77,
            CharacterId::Unknown78 => 78,
            CharacterId::SherryVest => 79,
            CharacterId::LeonNpc => 80,
            CharacterId::ClaireNpc => 81,
            CharacterId::Unknown82 => 82,
            CharacterId::Unknown83 => 83,
            CharacterId::LeonBandagedNpc => 84,
            CharacterId::Unknown => 255,
        }
    }

    pub fn id(&self) -> (r: u8)
        ensures
            r == self.spec_id(),
    {
        match self {
            CharacterId::Leon => 0,
            CharacterId::Claire => 1,
            CharacterId::Unknown2 => 2,
            CharacterId::Unknown3 => 3,
            CharacterId::LeonBandaged => 4,
            CharacterId::ClaireBlackTop => 5,
            CharacterId::Unknown6 => 6,
            CharacterId::Unknown7 => 7,
            CharacterId::LeonTankTop => 8,
            CharacterId::ClaireBiker => 9,
            CharacterId::LeonSkullJacket => 10,
            CharacterId::Chris => 11,
            CharacterId::Hunk => 12,
            CharacterId::Tofu => 13,
            CharacterId::Ada => 14,
            CharacterId::Sherry => 15,
            CharacterId::ZombiePoliceHat => 16,
            CharacterId::Brad => 17,
            CharacterId::ZombieTornShirt => 18,
            CharacterId::Misty => 19,
            CharacterId::Unknown20 => 20,
            CharacterId::ZombieLabWhite => 21,
            CharacterId::ZombieLabYellow => 22,
            CharacterId::NakedZombie => 23,
            CharacterId::ZombieYellowShirt => 24,
            CharacterId::Unknown25 => 25,
            CharacterId::Unknown26 => 26,
            CharacterId::Unknown27 => 27,
            CharacterId::Unknown28 => 28,
            CharacterId::Unknown29 => 29,
            CharacterId::HeadlessZombieYellowShirt => 30,
            CharacterId::ZombieRandom => 31,
            CharacterId::Dog => 32,
            CharacterId::Crow => 33,
            CharacterId::LickerRed => 34,
            CharacterId::Croc => 35,
            CharacterId::LickerBlack => 36,
            CharacterId::Spider => 37,
            CharacterId::SpiderBaby => 38,
            CharacterId::GYoung => 39,
            CharacterId::GAdult => 40,
            CharacterId::Roach => 41,
            CharacterId::MrX => 42,
            CharacterId::SuperX => 43,
            CharacterId::Unknown44 => 44,
            CharacterId::Hands => 45,
            CharacterId::Ivy => 46,
            CharacterId::Tentacle => 47,
            CharacterId::G1 => 48,
            CharacterId::G2 => 49,
            CharacterId::Unknown50 => 50,
            CharacterId::G3 => 51,
            CharacterId::G4 => 52,
            CharacterId::Unknown53 => 53,
            CharacterId::G5 => 54,
            CharacterId::G5Tentacle => 55,
            CharacterId::Unknown56 => 56,
            CharacterId::PoisonIvy => 57,
            CharacterId::Moth => 58,
            CharacterId::Larva => 59,
            CharacterId::Unknown60 => 60,
            CharacterId::Unknown61 => 61,
            CharacterId::FuseArm => 62,
            CharacterId::FuseHousing => 63,
            CharacterId::Irons => 64,
            CharacterId::AdaNpc => 65,
            CharacterId::IronsTorso => 66,
            CharacterId::AdaWounded => 67,
            CharacterId::BenDead => 68,
            CharacterId::SherryNpc => 69,
            CharacterId::Ben => 70,
            CharacterId::Annette => 71,
            CharacterId::Kendo => 72,
            CharacterId::Unknown73 => 73,
            CharacterId::Marvin => 74,
            CharacterId::MayorsDaughter => 75,
            CharacterId::Unknown76 => 76,
            CharacterId::Unknown77 => 77,
            CharacterId::Unknown78 => 78,
            CharacterId::SherryVest => 79,
            CharacterId::LeonNpc => 80,
            CharacterId::ClaireNpc => 81,
            CharacterId::Unknown82 => 82,
            CharacterId::Unknown83 => 83,
            CharacterId::LeonBandagedNpc => 84,
            CharacterId::Unknown => 255,
        }
    }

    /// The value that a number stands for; `None` for a number that stands for none.
    pub fn from_id(id: u8) -> (r: Option<CharacterId>)
        ensures
            r matches Some(v) ==> v.spec_id() == id,
            r is None ==> forall|v: CharacterId| v.spec_id() != id,
    {
        match id {
            0 => Some(CharacterId::Leon),
            1 => Some(CharacterId::Claire),
            2 => Some(CharacterId::Unknown2),
            3 => Some(CharacterId::Unknown3),
            4 => Some(CharacterId::LeonBandaged),
            5 => Some(CharacterId::ClaireBlackTop),
            6 => Some(CharacterId::Unknown6),
            7 => Some(CharacterId::Unknown7),
            8 => Some(CharacterId::LeonTankTop),
            9 => Some(CharacterId::ClaireBiker),
            10 => Some(CharacterId::LeonSkullJacket),
            11 => Some(CharacterId::Chris),
            12 => Some(CharacterId::Hunk),
            13 => Some(CharacterId::Tofu),
            14 => Some(CharacterId::Ada),
            15 => Some(CharacterId::Sherry),
            16 => Some(CharacterId::ZombiePoliceHat),
            17 => Some(CharacterId::Brad),
            18 => Some(CharacterId::ZombieTornShirt),
            19 => Some(CharacterId::Misty),
            20 => Some(CharacterId::Unknown20),
            21 => Some(CharacterId::ZombieLabWhite),
            22 => Some(CharacterId::ZombieLabYellow),
            23 => Some(CharacterId::NakedZombie),
            24 => Some(CharacterId::ZombieYellowShirt),
            25 => Some(CharacterId::Unknown25),
            26 => Some(CharacterId::Unknown26),
            27 => Some(CharacterId::Unknown27),
            28 => Some(CharacterId::Unknown28),
            29 => Some(CharacterId::Unknown29),
            30 => Some(CharacterId::HeadlessZombieYellowShirt),
            31 => Some(CharacterId::ZombieRandom),
            32 => Some(CharacterId::Dog),
            33 => Some(CharacterId::Crow),
            34 => Some(CharacterId::LickerRed),
            35 => Some(CharacterId::Croc),
            36 => Some(CharacterId::LickerBlack),
            37 => Some(CharacterId::Spider),
            38 => Some(CharacterId::SpiderBaby),
            39 => Some(CharacterId::GYoung),
            40 => Some(CharacterId::GAdult),
            41 => Some(CharacterId::Roach),
            42 => Some(CharacterId::MrX),
            43 => Some(CharacterId::SuperX),
            44 => Some(CharacterId::Unknown44),
            45 => Some(CharacterId::Hands),
            46 => Some(CharacterId::Ivy),
            47 => Some(CharacterId::Tentacle),
            48 => Some(CharacterId::G1),
            49 => Some(CharacterId::G2),
            50 => Some(CharacterId::Unknown50),
            51 => Some(CharacterId::G3),
            52 => Some(CharacterId::G4),
            53 => Some(CharacterId::Unknown53),
            54 => Some(CharacterId::G5),
            55 => Some(CharacterId::G5Tentacle),
            56 => Some(CharacterId::Unknown56),
            57 => Some(CharacterId::PoisonIvy),
            58 => Some(CharacterId::Moth),
            59 => Some(CharacterId::Larva),
            60 => Some(CharacterId::Unknown60),
            61 => Some(CharacterId::Unknown61),
            62 => Some(CharacterId::FuseArm),
            63 => Some(CharacterId::FuseHousing),
            64 => Some(CharacterId::Irons),
            65 => Some(CharacterId::AdaNpc),
            66 => Some(CharacterId::IronsTorso),
            67 => Some(CharacterId::AdaWounded),
            68 => Some(CharacterId::BenDead),
            69 => Some(CharacterId::SherryNpc),
            70 => Some(CharacterId::Ben),
            71 => Some(CharacterId::Annette),
            72 => Some(CharacterId::Kendo),
            73 => Some(CharacterId::Unknown73),
            74 => Some(CharacterId::Marvin),
            75 => Some(CharacterId::MayorsDaughter),
            76 => Some(CharacterId::Unknown76),
            77 => Some(CharacterId::Unknown77),
            78 => Some(CharacterId::Unknown78),
            79 => Some(CharacterId::SherryVest),
            80 => Some(CharacterId::LeonNpc),
            81 => Some(CharacterId::ClaireNpc),
            82 => Some(CharacterId::Unknown82),
            83 => Some(CharacterId::Unknown83),
            84 => Some(CharacterId::LeonBandagedNpc),
            255 => Some(CharacterId::Unknown),
            _ => None,
        }
    }

    /// The display name.
    pub open spec fn spec_name(self) -> Seq<char> {
        match self {
            CharacterId::Leon => "Leon"@,
            CharacterId::Claire => "Claire"@,
            CharacterId::Unknown2 => "Unknown 2"@,
            CharacterId::Unknown3 => "Unknown 3"@,
            CharacterId::LeonBandaged => "Leon (bandaged)"@,
            CharacterId::ClaireBlackTop => "Claire (black top)"@,
            CharacterId::Unknown6 => "Unknown 6"@,
            CharacterId::Unknown7 => "Unknown 7"@,
            CharacterId::LeonTankTop => "Leon (tank top)"@,
            CharacterId::ClaireBiker => "Claire (biker)"@,
            CharacterId::LeonSkullJacket => "Leon (skull jacket)"@,
            CharacterId::Chris => "Chris"@,
            CharacterId::Hunk => "Hunk"@,
            CharacterId::Tofu => "Tofu"@,
            CharacterId::Ada => "Ada"@,
            CharacterId::Sherry => "Sherry"@,
            CharacterId::ZombiePoliceHat => "Zombie (police hat)"@,
            CharacterId::Brad => "Brad"@,
            CharacterId::ZombieTornShirt => "Zombie (torn shirt)"@,
            CharacterId::Misty => "Misty"@,
            CharacterId::Unknown20 => "Unknown Zombie 20"@,
            CharacterId::ZombieLabWhite => "Zombie (lab, white)"@,
            CharacterId::ZombieLabYellow => "Zombie (lab, yellow)"@,
            CharacterId::NakedZombie => "Naked zombie"@,
            CharacterId::ZombieYellowShirt => "Zombie (yellow shirt)"@,
            CharacterId::Unknown25 => "Unknown Zombie 25"@,
            CharacterId::Unknown26 => "Unknown Zombie 26"@,
            CharacterId::Unknown27 => "Unknown Zombie 27"@,
            CharacterId::Unknown28 => "Unknown Zombie 28"@,
            CharacterId::Unknown29 => "Unknown Zombie 29"@,
            CharacterId::HeadlessZombieYellowShirt => "Headless zombie (yellow shirt)"@,
            CharacterId::ZombieRandom => "Zombie (random)"@,
            CharacterId::Dog => "Dog"@,
            CharacterId::Crow => "Crow"@,
            CharacterId::LickerRed => "Licker (red)"@,
            CharacterId::Croc => "Croc"@,
            CharacterId::LickerBlack => "Licker (black)"@,
            CharacterId::Spider => "Spider"@,
            CharacterId::SpiderBaby => "Baby spider"@,
            CharacterId::GYoung => "G Young"@,
            CharacterId::GAdult => "G Adult"@,
            CharacterId::Roach => "Roach"@,
            CharacterId::MrX => "Mr. X"@,
            CharacterId::SuperX => "Tyrant"@,
            CharacterId::Unknown44 => "Unknown 44"@,
            CharacterId::Hands => "Hands"@,
            CharacterId::Ivy => "Ivy"@,
            CharacterId::Tentacle => "Tentacle"@,
            CharacterId::G1 => "G1"@,
            CharacterId::G2 => "G2"@,
            CharacterId::Unknown50 => "Unknown 50"@,
            CharacterId::G3 => "G3"@,
            CharacterId::G4 => "G4"@,
            CharacterId::Unknown53 => "Unknown 53"@,
            CharacterId::G5 => "G5"@,
            CharacterId::G5Tentacle => "G5 Tentacle"@,
            CharacterId::Unknown56 => "Unknown 56"@,
            CharacterId::PoisonIvy => "Poison Ivy"@,
            CharacterId::Moth => "Moth"@,
            CharacterId::Larva => "Larva"@,
            CharacterId::Unknown60 => "Unknown 60"@,
            CharacterId::Unknown61 => "Unknown 61"@,
            CharacterId::FuseArm => "Fuse Arm"@,
            CharacterId::FuseHousing => "Fuse Housing"@,
            CharacterId::Irons => "Irons"@,
            CharacterId::AdaNpc => "Ada (NPC)"@,
            CharacterId::IronsTorso => "Irons (torso)"@,
            CharacterId::AdaWounded => "Ada (wounded)"@,
            CharacterId::BenDead => "Ben (dead)"@,
            CharacterId::SherryNpc => "Sherry (NPC)"@,
            CharacterId::Ben => "Ben"@,
            CharacterId::Annette => "Annette"@,
            CharacterId::Kendo => "Kendo"@,
            CharacterId::Unknown73 => "Unknown 73"@,
            CharacterId::Marvin => "Marvin"@,
            CharacterId::MayorsDaughter => "Mayor's daughter"@,
            CharacterId::Unknown76 => "Unknown 76"@,
            CharacterId::Unknown77 => "Unknown 77"@,
            CharacterId::Unknown78 => "Unknown 78"@,
            CharacterId::SherryVest => "Sherry (vest)"@,
            CharacterId::LeonNpc => "Leon (NPC)"@,
            CharacterId::ClaireNpc => "Claire (NPC)"@,
            CharacterId::Unknown82 => "Unknown 82"@,
            CharacterId::Unknown83 => "Unknown 83"@,
            CharacterId::LeonBandagedNpc => "Leon (bandaged, NPC)"@,
            CharacterId::Unknown => "Unknown"@,
        }
    }

    /// The display name.
    pub fn name(&self) -> (r: &'static str)
        ensures
            r@ == self.spec_name(),
    {
        match self {
            CharacterId::Leon => "Leon",
            CharacterId::Claire => "Claire",
            CharacterId::Unknown2 => "Unknown 2",
            CharacterId::Unknown3 => "Unknown 3",
            CharacterId::LeonBandaged => "Leon (bandaged)",
            CharacterId::ClaireBlackTop => "Claire (black top)",
            CharacterId::Unknown6 => "Unknown 6",
            CharacterId::Unknown7 => "Unknown 7",
            CharacterId::LeonTankTop => "Leon (tank top)",
            CharacterId::ClaireBiker => "Claire (biker)",
            CharacterId::LeonSkullJacket => "Leon (skull jacket)",
            CharacterId::Chris => "Chris",
            CharacterId::Hunk => "Hunk",
            CharacterId::Tofu => "Tofu",
            CharacterId::Ada => "Ada",
            CharacterId::Sherry => "Sherry",
            CharacterId::ZombiePoliceHat => "Zombie (police hat)",
            CharacterId::Brad => "Brad",
            CharacterId::ZombieTornShirt => "Zombie (torn shirt)",
            CharacterId::Misty => "Misty",
            CharacterId::Unknown20 => "Unknown Zombie 20",
            CharacterId::ZombieLabWhite => "Zombie (lab, white)",
            CharacterId::ZombieLabYellow => "Zombie (lab, yellow)",
            CharacterId::NakedZombie => "Naked zombie",
            CharacterId::ZombieYellowShirt => "Zombie (yellow shirt)",
            CharacterId::Unknown25 => "Unknown Zombie 25",
            CharacterId::Unknown26 => "Unknown Zombie 26",
            CharacterId::Unknown27 => "Unknown Zombie 27",
            CharacterId::Unknown28 => "Unknown Zombie 28",
            CharacterId::Unknown29 => "Unknown Zombie 29",
            CharacterId::HeadlessZombieYellowShirt => "Headless zombie (yellow shirt)",
            CharacterId::ZombieRandom => "Zombie (random)",
            CharacterId::Dog => "Dog",
            CharacterId::Crow => "Crow",
            CharacterId::LickerRed => "Licker (red)",
            CharacterId::Croc => "Croc",
            CharacterId::LickerBlack => "Licker (black)",
            CharacterId::Spider => "Spider",
            CharacterId::SpiderBaby => "Baby spider",
            CharacterId::GYoung => "G Young",
            CharacterId::GAdult => "G Adult",
            CharacterId::Roach => "Roach",
            CharacterId::MrX => "Mr. X",
            CharacterId::SuperX => "Tyrant",
            CharacterId::Unknown44 => "Unknown 44",
            CharacterId::Hands => "Hands",
            CharacterId::Ivy => "Ivy",
            CharacterId::Tentacle => "Tentacle",
            CharacterId::G1 => "G1",
            CharacterId::G2 => "G2",
            CharacterId::Unknown50 => "Unknown 50",
            CharacterId::G3 => "G3",
            CharacterId::G4 => "G4",
            CharacterId::Unknown53 => "Unknown 53",
            CharacterId::G5 => "G5",
            CharacterId::G5Tentacle => "G5 Tentacle",
            CharacterId::Unknown56 => "Unknown 56",
            CharacterId::PoisonIvy => "Poison Ivy",
            CharacterId::Moth => "Moth",
            CharacterId::Larva => "Larva",
            CharacterId::Unknown60 => "Unknown 60",
            CharacterId::Unknown61 => "Unknown 61",
            CharacterId::FuseArm => "Fuse Arm",
            CharacterId::FuseHousing => "Fuse Housing",
            CharacterId::Irons => "Irons",
            CharacterId::AdaNpc => "Ada (NPC)",
            CharacterId::IronsTorso => "Irons (torso)",
            CharacterId::AdaWounded => "Ada (wounded)",
            CharacterId::BenDead => "Ben (dead)",
            CharacterId::SherryNpc => "Sherry (NPC)",
            CharacterId::Ben => "Ben",
            CharacterId::Annette => "Annette",
            CharacterId::Kendo => "Kendo",
            CharacterId::Unknown73 => "Unknown 73",
            CharacterId::Marvin => "Marvin",
            CharacterId::MayorsDaughter => "Mayor's daughter",
            CharacterId::Unknown76 => "Unknown 76",
            CharacterId::Unknown77 => "Unknown 77",
            CharacterId::Unknown78 => "Unknown 78",
            CharacterId::SherryVest => "Sherry (vest)",
            CharacterId::LeonNpc => "Leon (NPC)",
            CharacterId::ClaireNpc => "Claire (NPC)",
            CharacterId::Unknown82 => "Unknown 82",
            CharacterId::Unknown83 => "Unknown 83",
            CharacterId::LeonBandagedNpc => "Leon (bandaged, NPC)",
            CharacterId::Unknown => "Unknown",
        }
    }

    /// The player characters.
    pub open spec fn spec_is_player(self) -> bool {
        self == CharacterId::Leon || self == CharacterId::Claire || self == CharacterId::Unknown2 || self == CharacterId::Unknown3 || self == CharacterId::LeonBandaged || self == CharacterId::ClaireBlackTop || self == CharacterId::Unknown6 || self == CharacterId::Unknown7 || self == CharacterId::LeonTankTop || self == CharacterId::ClaireBiker || self == CharacterId::LeonSkullJacket || self == CharacterId::Chris || self == CharacterId::Hunk || self == CharacterId::Tofu || self == CharacterId::Ada || self == CharacterId::Sherry
    }

    pub fn is_player(&self) -> (r: bool)
        ensures
            r == self.spec_is_player(),
    {
        match self {
            CharacterId::Leon => true,
            CharacterId::Claire => true,
            CharacterId::Unknown2 => true,
            CharacterId::Unknown3 => true,
            CharacterId::LeonBandaged => true,
            CharacterId::ClaireBlackTop => true,
            CharacterId::Unknown6 => true,
            CharacterId::Unknown7 => true,
            CharacterId::LeonTankTop => true,
            CharacterId::ClaireBiker => true,
            CharacterId::LeonSkullJacket => true,
            CharacterId::Chris => true,
            CharacterId::Hunk => true,
            CharacterId::Tofu => true,
            CharacterId::Ada => true,
            CharacterId::Sherry => true,
            _ => false,
        }
    }

    /// The zombies.
    pub open spec fn spec_is_zombie(self) -> bool {
        self == CharacterId::ZombiePoliceHat || self == CharacterId::ZombieTornShirt || self == CharacterId::ZombieYellowShirt || self == CharacterId::ZombieRandom || self == CharacterId::ZombieLabWhite || self == CharacterId::ZombieLabYellow || self == CharacterId::Misty || self == CharacterId::Unknown20 || self == CharacterId::Unknown25 || self == CharacterId::Unknown26 || self == CharacterId::Unknown27 || self == CharacterId::Unknown28 || self == CharacterId::Unknown29 || self == CharacterId::Brad || self == CharacterId::NakedZombie || self == CharacterId::HeadlessZombieYellowShirt
    }

    pub fn is_zombie(&self) -> (r: bool)
        ensures
            r == self.spec_is_zombie(),
    {
        match self {
            CharacterId::ZombiePoliceHat => true,
            CharacterId::ZombieTornShirt => true,
            CharacterId::ZombieYellowShirt => true,
            CharacterId::ZombieRandom => true,
            CharacterId::ZombieLabWhite => true,
            CharacterId::ZombieLabYellow => true,
            CharacterId::Misty => true,
            CharacterId::Unknown20 => true,
            CharacterId::Unknown25 => true,
            CharacterId::Unknown26 => true,
            CharacterId::Unknown27 => true,
            CharacterId::Unknown28 => true,
            CharacterId::Unknown29 => true,
            CharacterId::Brad => true,
            CharacterId::NakedZombie => true,
            CharacterId::HeadlessZombieYellowShirt => true,
            _ => false,
        }
    }

    /// The lickers.
    pub open spec fn spec_is_licker(self) -> bool {
        self == CharacterId::LickerRed || self == CharacterId::LickerBlack
    }

    pub fn is_licker(&self) -> (r: bool)
        ensures
            r == self.spec_is_licker(),
    {
        match self {
            CharacterId::LickerRed => true,
            CharacterId::LickerBlack => true,
            _ => false,
        }
    }
}

} // verus!
