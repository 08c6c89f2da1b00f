//! The icons that a macro can carry, and the pair of texts that stands for
//! each of them in a macro's records.
use crate::text::str_eq;
use vstd::prelude::*;

verus! {

/// The icons of the macro menu. An icon set by a command inside the macro's
/// lines is not part of the macro's stored data and has no variant here.
#[derive(Clone, Copy, Debug, PartialEq, Eq, Structural)]
pub enum MacroIcon {
    /// The icon that a new macro gets.
    DefaultIcon,
    /// The damage dealer role mark with the number 1.
    DPS1,
    /// The damage dealer role mark with the number 2.
    DPS2,
    /// The damage dealer role mark with the number 3.
    DPS3,
    /// The tank role mark with the number 1.
    Tank1,
    /// The tank role mark with the number 2.
    Tank2,
    /// The tank role mark with the number 3.
    Tank3,
    /// The healer role mark with the number 1.
    Healer1,
    /// The healer role mark with the number 2.
    Healer2,
    /// The healer role mark with the number 3.
    Healer3,
    /// The crafter role mark in purple with the number 1.
    CrafterPurple1,
    /// The crafter role mark in purple with the number 2.
    CrafterPurple2,
    /// The crafter role mark in purple with the number 3.
    CrafterPurple3,
    /// The crafter role mark in yellow with the number 1.
    CrafterYellow1,
    /// The crafter role mark in yellow with the number 2.
    CrafterYellow2,
    /// The crafter role mark in yellow with the number 3.
    CrafterYellow3,
    /// The crafter role mark in green with the number 1.
    CrafterGreen1,
    /// The crafter role mark in green with the number 2.
    CrafterGreen2,
    /// The crafter role mark in green with the number 3.
    CrafterGreen3,
    /// A hammer in a golden frame.
    ItemHammer,
    /// A sword in a golden frame.
    ItemSword,
    /// A shield in a golden frame.
    ItemShield,
    /// A ring in a golden frame.
    ItemRing,
    /// A shoes in a golden frame.
    ItemShoes,
    /// A hat in a golden frame.
    ItemHat,
    /// A bottle in a golden frame.
    ItemBottle,
    /// A bread in a golden frame.
    ItemBread,
    /// The gatherer role mark with the number 1.
    Gatherer1,
    /// The gatherer role mark with the number 2.
    Gatherer2,
    /// The gatherer role mark with the number 3.
    Gatherer3,
    /// The number 0, golden on blue.
    Number0,
    /// The number 1, golden on blue.
    Number1,
    /// The number 2, golden on blue.
    Number2,
    /// The number 3, golden on blue.
    Number3,
    /// The number 4, golden on blue.
    Number4,
    /// The number 5, golden on blue.
    Number5,
    /// The number 6, golden on blue.
    Number6,
    /// The number 7, golden on blue.
    Number7,
    /// The number 8, golden on blue.
    Number8,
    /// The number 9, golden on blue.
    Number9,
    /// The number 10, golden on blue.
    Number10,
    /// The number 0, blue on gold.
    InverseNumber0,
    /// The number 1, blue on gold.
    InverseNumber1,
    /// The number 2, blue on gold.
    InverseNumber2,
    /// The number 3, blue on gold.
    InverseNumber3,
    /// The number 4, blue on gold.
    InverseNumber4,
    /// The number 5, blue on gold.
    InverseNumber5,
    /// The number 6, blue on gold.
    InverseNumber6,
    /// The number 7, blue on gold.
    InverseNumber7,
    /// The number 8, blue on gold.
    InverseNumber8,
    /// The number 9, blue on gold.
    InverseNumber9,
    /// The number 10, blue on gold.
    InverseNumber10,
    /// A gray arrow pointing left.
    SymbolArrowLeft,
    /// A gray arrow pointing right.
    SymbolArrowRight,
    /// A gray arrow pointing up.
    SymbolArrowUp,
    /// A gray arrow pointing down.
    SymbolArrowDown,
    /// A gray circle.
    SymbolCircle,
    /// A gray triangle.
    SymbolTriangle,
    /// A gray square.
    SymbolSquare,
    /// A gray cross.
    SymbolX,
    /// A gray prohibition sign.
    SymbolNo,
    /// A gray warning sign.
    SymbolWarning,
    /// A gray check mark.
    SymbolCheck,
    /// A gray star.
    SymbolStar,
    /// A gray question mark.
    SymbolQuestion,
    /// A gray exclamation mark.
    SymbolExclamation,
    /// A gray plus sign.
    SymbolPlus,
    /// A gray minus sign.
    SymbolMinus,
    /// A gray clock.
    SymbolClock,
    /// A gray light bulb.
    SymbolBulb,
    /// A gray cog wheel.
    SymbolCog,
    /// A gray magnifying glass.
    SymbolSearch,
    /// A gray speech bubble.
    SymbolSpeech,
    /// A gray heart.
    SymbolHeart,
    /// A gray spade.
    SymbolSpade,
    /// A gray club.
    SymbolClub,
    /// A gray diamond.
    SymbolDiamond,
    /// A gray die.
    SymbolDice,
    /// The fire crystal.
    CrystalFire,
    /// The ice crystal.
    CrystalIce,
    /// The wind crystal.
    CrystalWind,
    /// The earth crystal.
    CrystalEarth,
    /// The lightning crystal.
    CrystalLightning,
    /// The water crystal.
    CrystalWater,
    /// No icon at all; what an undefined macro carries.
    NoIcon,
}

/// The key that stands for an icon in a macro's key record: the icon's place
/// in the menu, as three hexadecimal digits.
pub open spec fn icon_key(icon: MacroIcon) -> Seq<char> {
    match icon {
        MacroIcon::NoIcon => "000"@,
        MacroIcon::DefaultIcon => "001"@,
        MacroIcon::DPS1 => "002"@,
        MacroIcon::DPS2 => "003"@,
        MacroIcon::DPS3 => "004"@,
        MacroIcon::Tank1 => "005"@,
        MacroIcon::Tank2 => "006"@,
        MacroIcon::Tank3 => "007"@,
        MacroIcon::Healer1 => "008"@,
        MacroIcon::Healer2 => "009"@,
        MacroIcon::Healer3 => "00A"@,
        MacroIcon::CrafterPurple1 => "00B"@,
        MacroIcon::CrafterPurple2 => "00C"@,
        MacroIcon::CrafterPurple3 => "00D"@,
        MacroIcon::CrafterYellow1 => "00E"@,
        MacroIcon::CrafterYellow2 => "00F"@,
        MacroIcon::CrafterYellow3 => "010"@,
        MacroIcon::CrafterGreen1 => "011"@,
        MacroIcon::CrafterGreen2 => "012"@,
        MacroIcon::CrafterGreen3 => "013"@,
        MacroIcon::ItemHammer => "014"@,
        MacroIcon::ItemSword => "015"@,
        MacroIcon::ItemShield => "016"@,
        MacroIcon::ItemRing => "017"@,
        MacroIcon::ItemShoes => "018"@,
        MacroIcon::ItemHat => "019"@,
        MacroIcon::ItemBottle => "01A"@,
        MacroIcon::ItemBread => "01B"@,
        MacroIcon::Gatherer1 => "01C"@,
        MacroIcon::Gatherer2 => "01D"@,
        MacroIcon::Gatherer3 => "01E"@,
        MacroIcon::Number0 => "01F"@,
        MacroIcon::Number1 => "020"@,
        MacroIcon::Number2 => "021"@,
        MacroIcon::Number3 => "022"@,
        MacroIcon::Number4 => "023"@,
        MacroIcon::Number5 => "024"@,
        MacroIcon::Number6 => "025"@,
        MacroIcon::Number7 => "026"@,
        MacroIcon::Number8 => "027"@,
        MacroIcon::Number9 => "028"@,
        MacroIcon::Number10 => "029"@,
        MacroIcon::InverseNumber0 => "02A"@,
        MacroIcon::InverseNumber1 => "02B"@,
        MacroIcon::InverseNumber2 => "02C"@,
        MacroIcon::InverseNumber3 => "02D"@,
        MacroIcon::InverseNumber4 => "02E"@,
        MacroIcon::InverseNumber5 => "02F"@,
        MacroIcon::InverseNumber6 => "030"@,
        MacroIcon::InverseNumber7 => "031"@,
        MacroIcon::InverseNumber8 => "032"@,
        MacroIcon::InverseNumber9 => "033"@,
        MacroIcon::InverseNumber10 => "034"@,
        MacroIcon::SymbolArrowLeft => "035"@,
        MacroIcon::SymbolArrowRight => "036"@,
        MacroIcon::SymbolArrowUp => "037"@,
        MacroIcon::SymbolArrowDown => "038"@,
        MacroIcon::SymbolCircle => "039"@,
        MacroIcon::SymbolTriangle => "03A"@,
        MacroIcon::SymbolSquare => "03B"@,
        MacroIcon::SymbolX => "03C"@,
        MacroIcon::SymbolNo => "03D"@,
        MacroIcon::SymbolWarning => "03E"@,
        MacroIcon::SymbolCheck => "03F"@,
        MacroIcon::SymbolStar => "040"@,
        MacroIcon::SymbolQuestion => "041"@,
        MacroIcon::SymbolExclamation => "042"@,
        MacroIcon::SymbolPlus => "043"@,
        MacroIcon::SymbolMinus => "044"@,
        MacroIcon::SymbolClock => "045"@,
        MacroIcon::SymbolBulb => "046"@,
        MacroIcon::SymbolCog => "047"@,
        MacroIcon::SymbolSearch => "048"@,
        MacroIcon::SymbolSpeech => "049"@,
        MacroIcon::SymbolHeart => "04A"@,
        MacroIcon::SymbolSpade => "04B"@,
        MacroIcon::SymbolClub => "04C"@,
        MacroIcon::SymbolDiamond => "04D"@,
        MacroIcon::SymbolDice => "04E"@,
        MacroIcon::CrystalFire => "04F"@,
        MacroIcon::CrystalIce => "050"@,
        MacroIcon::CrystalWind => "051"@,
        MacroIcon::CrystalEarth => "052"@,
        MacroIcon::CrystalLightning => "053"@,
        MacroIcon::CrystalWater => "054"@,
    }
}

/// The id that stands for an icon in a macro's icon record: the icon's number
/// in the game data, as seven hexadecimal digits.
pub open spec fn icon_id(icon: MacroIcon) -> Seq<char> {
    match icon {
        MacroIcon::NoIcon => "0000000"@,
        MacroIcon::DefaultIcon => "00101D1"@,
        MacroIcon::DPS1 => "0010235"@,
        MacroIcon::DPS2 => "0010236"@,
        MacroIcon::DPS3 => "0010237"@,
        MacroIcon::Tank1 => "0010249"@,
        MacroIcon::Tank2 => "001024A"@,
        MacroIcon::Tank3 => "001024B"@,
        MacroIcon::Healer1 => "001025D"@,
        MacroIcon::Healer2 => "001025E"@,
        MacroIcon::Healer3 => "001025F"@,
        MacroIcon::CrafterPurple1 => "00101E5"@,
        MacroIcon::CrafterPurple2 => "00101E6"@,
        MacroIcon::CrafterPurple3 => "00101E7"@,
        MacroIcon::CrafterYellow1 => "00101F9"@,
        MacroIcon::CrafterYellow2 => "00101FA"@,
        MacroIcon::CrafterYellow3 => "00101FB"@,
        MacroIcon::CrafterGreen1 => "001020D"@,
        MacroIcon::CrafterGreen2 => "001020E"@,
        MacroIcon::CrafterGreen3 => "001020F"@,
        MacroIcon::ItemHammer => "00005E9"@,
        MacroIcon::ItemSword => "000061B"@,
        MacroIcon::ItemShield => "000064D"@,
        MacroIcon::ItemRing => "000067E"@,
        MacroIcon::ItemShoes => "00006B1"@,
        MacroIcon::ItemHat => "00006E2"@,
        MacroIcon::ItemBottle => "0000715"@,
        MacroIcon::ItemBread => "0000746"@,
        MacroIcon::Gatherer1 => "0010221"@,
        MacroIcon::Gatherer2 => "0010222"@,
        MacroIcon::Gatherer3 => "0010223"@,
        MacroIcon::Number0 => "0010271"@,
        MacroIcon::Number1 => "0010272"@,
        MacroIcon::Number2 => "0010273"@,
        MacroIcon::Number3 => "0010274"@,
        MacroIcon::Number4 => "0010275"@,
        MacroIcon::Number5 => "0010276"@,
        MacroIcon::Number6 => "0010277"@,
        MacroIcon::Number7 => "0010278"@,
        MacroIcon::Number8 => "0010279"@,
        MacroIcon::Number9 => "001027A"@,
        MacroIcon::Number10 => "001027B"@,
        MacroIcon::InverseNumber0 => "0010285"@,
        MacroIcon::InverseNumber1 => "0010286"@,
        MacroIcon::InverseNumber2 => "0010287"@,
        MacroIcon::InverseNumber3 => "0010288"@,
        MacroIcon::InverseNumber4 => "0010289"@,
        MacroIcon::InverseNumber5 => "001028A"@,
        MacroIcon::InverseNumber6 => "001028B"@,
        MacroIcon::InverseNumber7 => "001028C"@,
        MacroIcon::InverseNumber8 => "001028D"@,
        MacroIcon::InverseNumber9 => "001028E"@,
        MacroIcon::InverseNumber10 => "001028F"@,
        MacroIcon::SymbolArrowLeft => "00102FD"@,
        MacroIcon::SymbolArrowRight => "00102FE"@,
        MacroIcon::SymbolArrowUp => "00102FF"@,
        MacroIcon::SymbolArrowDown => "0010300"@,
        MacroIcon::SymbolCircle => "0010301"@,
        MacroIcon::SymbolTriangle => "0010302"@,
        MacroIcon::SymbolSquare => "0010303"@,
        MacroIcon::SymbolX => "0010304"@,
        MacroIcon::SymbolNo => "0010305"@,
        MacroIcon::SymbolWarning => "0010306"@,
        MacroIcon::SymbolCheck => "0010307"@,
        MacroIcon::SymbolStar => "0010308"@,
        MacroIcon::SymbolQuestion => "0010309"@,
        MacroIcon::SymbolExclamation => "001030A"@,
        MacroIcon::SymbolPlus => "001030B"@,
        MacroIcon::SymbolMinus => "001030C"@,
        MacroIcon::SymbolClock => "001030D"@,
        MacroIcon::SymbolBulb => "001030E"@,
        MacroIcon::SymbolCog => "001030F"@,
        MacroIcon::SymbolSearch => "0010310"@,
        MacroIcon::SymbolSpeech => "0010311"@,
        MacroIcon::SymbolHeart => "0010312"@,
        MacroIcon::SymbolSpade => "0010313"@,
        MacroIcon::SymbolClub => "0010314"@,
        MacroIcon::SymbolDiamond => "0010315"@,
        MacroIcon::SymbolDice => "0010316"@,
        MacroIcon::CrystalFire => "0004E27"@,
        MacroIcon::CrystalIce => "0004E29"@,
        MacroIcon::CrystalWind => "0004E2A"@,
        MacroIcon::CrystalEarth => "0004E2C"@,
        MacroIcon::CrystalLightning => "0004E2B"@,
        MacroIcon::CrystalWater => "0004E28"@,
    }
}

/// The icon that a key and an id stand for together: the registered pair
/// that they form, if they form one.
pub open spec fn icon_of(key: Seq<char>, id: Seq<char>) -> Option<MacroIcon> {
    if key == "000"@ && id == "0000000"@ {
        Some(MacroIcon::NoIcon)
    } else if key == "001"@ && id == "00101D1"@ {
        Some(MacroIcon::DefaultIcon)
    } else if key == "002"@ && id == "0010235"@ {
        Some(MacroIcon::DPS1)
    } else if key == "003"@ && id == "0010236"@ {
        Some(MacroIcon::DPS2)
    } else if key == "004"@ && id == "0010237"@ {
        Some(MacroIcon::DPS3)
    } else if key == "005"@ && id == "0010249"@ {
        Some(MacroIcon::Tank1)
    } else if key == "006"@ && id == "001024A"@ {
        Some(MacroIcon::Tank2)
    } else if key == "007"@ && id == "001024B"@ {
        Some(MacroIcon::Tank3)
    } else if key == "008"@ && id == "001025D"@ {
        Some(MacroIcon::Healer1)
    } else if key == "009"@ && id == "001025E"@ {
        Some(MacroIcon::Healer2)
    } else if key == "00A"@ && id == "001025F"@ {
        Some(MacroIcon::Healer3)
    } else if key == "00B"@ && id == "00101E5"@ {
        Some(MacroIcon::CrafterPurple1)
    } else if key == "00C"@ && id == "00101E6"@ {
        Some(MacroIcon::CrafterPurple2)
    } else if key == "00D"@ && id == "00101E7"@ {
        Some(MacroIcon::CrafterPurple3)
    } else if key == "00E"@ && id == "00101F9"@ {
        Some(MacroIcon::CrafterYellow1)
    } else if key == "00F"@ && id == "00101FA"@ {
        Some(MacroIcon::CrafterYellow2)
    } else if key == "010"@ && id == "00101FB"@ {
        Some(MacroIcon::CrafterYellow3)
    } else if key == "011"@ && id == "001020D"@ {
        Some(MacroIcon::CrafterGreen1)
    } else if key == "012"@ && id == "001020E"@ {
        Some(MacroIcon::CrafterGreen2)
    } else if key == "013"@ && id == "001020F"@ {
        Some(MacroIcon::CrafterGreen3)
    } else if key == "014"@ && id == "00005E9"@ {
        Some(MacroIcon::ItemHammer)
    } else if key == "015"@ && id == "000061B"@ {
        Some(MacroIcon::ItemSword)
    } else if key == "016"@ && id == "000064D"@ {
        Some(MacroIcon::ItemShield)
    } else if key == "017"@ && id == "000067E"@ {
        Some(MacroIcon::ItemRing)
    } else if key == "018"@ && id == "00006B1"@ {
        Some(MacroIcon::ItemShoes)
    } else if key == "019"@ && id == "00006E2"@ {
        Some(MacroIcon::ItemHat)
    } else if key == "01A"@ && id == "0000715"@ {
        Some(MacroIcon::ItemBottle)
    } else if key == "01B"@ && id == "0000746"@ {
        Some(MacroIcon::ItemBread)
    } else if key == "01C"@ && id == "0010221"@ {
        Some(MacroIcon::Gatherer1)
    } else if key == "01D"@ && id == "0010222"@ {
        Some(MacroIcon::Gatherer2)
    } else if key == "01E"@ && id == "0010223"@ {
        Some(MacroIcon::Gatherer3)
    } else if key == "01F"@ && id == "0010271"@ {
        Some(MacroIcon::Number0)
    } else if key == "020"@ && id == "0010272"@ {
        Some(MacroIcon::Number1)
    } else if key == "021"@ && id == "0010273"@ {
        Some(MacroIcon::Number2)
    } else if key == "022"@ && id == "0010274"@ {
        Some(MacroIcon::Number3)
    } else if key == "023"@ && id == "0010275"@ {
        Some(MacroIcon::Number4)
    } else if key == "024"@ && id == "0010276"@ {
        Some(MacroIcon::Number5)
    } else if key == "025"@ && id == "0010277"@ {
        Some(MacroIcon::Number6)
    } else if key == "026"@ && id == "0010278"@ {
        Some(MacroIcon::Number7)
    } else if key == "027"@ && id == "0010279"@ {
        Some(MacroIcon::Number8)
    } else if key == "028"@ && id == "001027A"@ {
        Some(MacroIcon::Number9)
    } else if key == "029"@ && id == "001027B"@ {
        Some(MacroIcon::Number10)
    } else if key == "02A"@ && id == "0010285"@ {
        Some(MacroIcon::InverseNumber0)
    } else if key == "02B"@ && id == "0010286"@ {
        Some(MacroIcon::InverseNumber1)
    } else if key == "02C"@ && id == "0010287"@ {
        Some(MacroIcon::InverseNumber2)
    } else if key == "02D"@ && id == "0010288"@ {
        Some(MacroIcon::InverseNumber3)
    } else if key == "02E"@ && id == "0010289"@ {
        Some(MacroIcon::InverseNumber4)
    } else if key == "02F"@ && id == "001028A"@ {
        Some(MacroIcon::InverseNumber5)
    } else if key == "030"@ && id == "001028B"@ {
        Some(MacroIcon::InverseNumber6)
    } else if key == "031"@ && id == "001028C"@ {
        Some(MacroIcon::InverseNumber7)
    } else if key == "032"@ && id == "001028D"@ {
        Some(MacroIcon::InverseNumber8)
    } else if key == "033"@ && id == "001028E"@ {
        Some(MacroIcon::InverseNumber9)
    } else if key == "034"@ && id == "001028F"@ {
        Some(MacroIcon::InverseNumber10)
    } else if key == "035"@ && id == "00102FD"@ {
        Some(MacroIcon::SymbolArrowLeft)
    } else if key == "036"@ && id == "00102FE"@ {
        Some(MacroIcon::SymbolArrowRight)
    } else if key == "037"@ && id == "00102FF"@ {
        Some(MacroIcon::SymbolArrowUp)
    } else if key == "038"@ && id == "0010300"@ {
        Some(MacroIcon::SymbolArrowDown)
    } else if key == "039"@ && id == "0010301"@ {
        Some(MacroIcon::SymbolCircle)
    } else if key == "03A"@ && id == "0010302"@ {
        Some(MacroIcon::SymbolTriangle)
    } else if key == "03B"@ && id == "0010303"@ {
        Some(MacroIcon::SymbolSquare)
    } else if key == "03C"@ && id == "0010304"@ {
        Some(MacroIcon::SymbolX)
    } else if key == "03D"@ && id == "0010305"@ {
        Some(MacroIcon::SymbolNo)
    } else if key == "03E"@ && id == "0010306"@ {
        Some(MacroIcon::SymbolWarning)
    } else if key == "03F"@ && id == "0010307"@ {
        Some(MacroIcon::SymbolCheck)
    } else if key == "040"@ && id == "0010308"@ {
        Some(MacroIcon::SymbolStar)
    } else if key == "041"@ && id == "0010309"@ {
        Some(MacroIcon::SymbolQuestion)
    } else if key == "042"@ && id == "001030A"@ {
        Some(MacroIcon::SymbolExclamation)
    } else if key == "043"@ && id == "001030B"@ {
        Some(MacroIcon::SymbolPlus)
    } else if key == "044"@ && id == "001030C"@ {
        Some(MacroIcon::SymbolMinus)
    } else if key == "045"@ && id == "001030D"@ {
        Some(MacroIcon::SymbolClock)
    } else if key == "046"@ && id == "001030E"@ {
        Some(MacroIcon::SymbolBulb)
    } else if key == "047"@ && id == "001030F"@ {
        Some(MacroIcon::SymbolCog)
    } else if key == "048"@ && id == "0010310"@ {
        Some(MacroIcon::SymbolSearch)
    } else if key == "049"@ && id == "0010311"@ {
        Some(MacroIcon::SymbolSpeech)
    } else if key == "04A"@ && id == "0010312"@ {
        Some(MacroIcon::SymbolHeart)
    } else if key == "04B"@ && id == "0010313"@ {
        Some(MacroIcon::SymbolSpade)
    } else if key == "04C"@ && id == "0010314"@ {
        Some(MacroIcon::SymbolClub)
    } else if key == "04D"@ && id == "0010315"@ {
        Some(MacroIcon::SymbolDiamond)
    } else if key == "04E"@ && id == "0010316"@ {
        Some(MacroIcon::SymbolDice)
    } else if key == "04F"@ && id == "0004E27"@ {
        Some(MacroIcon::CrystalFire)
    } else if key == "050"@ && id == "0004E29"@ {
        Some(MacroIcon::CrystalIce)
    } else if key == "051"@ && id == "0004E2A"@ {
        Some(MacroIcon::CrystalWind)
    } else if key == "052"@ && id == "0004E2C"@ {
        Some(MacroIcon::CrystalEarth)
    } else if key == "053"@ && id == "0004E2B"@ {
        Some(MacroIcon::CrystalLightning)
    } else if key == "054"@ && id == "0004E28"@ {
        Some(MacroIcon::CrystalWater)
    } else {
        None
    }
}

/// Returns the icon that the contents of a macro's key and icon records stand
/// for. `None` where the two do not form a registered pair. The pair
/// `("000", "0000000")` of an undefined macro is registered and gives
/// [`MacroIcon::NoIcon`].
pub fn macro_icon_from_key_and_id(key: &str, id: &str) -> (icon: Option<MacroIcon>)
    ensures
        icon == icon_of(key@, id@),
{
    if str_eq(key, "000") && str_eq(id, "0000000") {
        Some(MacroIcon::NoIcon)
    } else if str_eq(key, "001") && str_eq(id, "00101D1") {
        Some(MacroIcon::DefaultIcon)
    } else if str_eq(key, "002") && str_eq(id, "0010235") {
        Some(MacroIcon::DPS1)
    } else if str_eq(key, "003") && str_eq(id, "0010236") {
        Some(MacroIcon::DPS2)
    } else if str_eq(key, "004") && str_eq(id, "0010237") {
        Some(MacroIcon::DPS3)
    } else if str_eq(key, "005") && str_eq(id, "0010249") {
        Some(MacroIcon::Tank1)
    } else if str_eq(key, "006") && str_eq(id, "001024A") {
        Some(MacroIcon::Tank2)
    } else if str_eq(key, "007") && str_eq(id, "001024B") {
        Some(MacroIcon::Tank3)
    } else if str_eq(key, "008") && str_eq(id, "001025D") {
        Some(MacroIcon::Healer1)
    } else if str_eq(key, "009") && str_eq(id, "001025E") {
        Some(MacroIcon::Healer2)
    } else if str_eq(key, "00A") && str_eq(id, "001025F") {
        Some(MacroIcon::Healer3)
    } else if str_eq(key, "00B") && str_eq(id, "00101E5") {
        Some(MacroIcon::CrafterPurple1)
    } else if str_eq(key, "00C") && str_eq(id, "00101E6") {
        Some(MacroIcon::CrafterPurple2)
    } else if str_eq(key, "00D") && str_eq(id, "00101E7") {
        Some(MacroIcon::CrafterPurple3)
    } else if str_eq(key, "00E") && str_eq(id, "00101F9") {
        Some(MacroIcon::CrafterYellow1)
    } else if str_eq(key, "00F") && str_eq(id, "00101FA") {
        Some(MacroIcon::CrafterYellow2)
    } else if str_eq(key, "010") && str_eq(id, "00101FB") {
        Some(MacroIcon::CrafterYellow3)
    } else if str_eq(key, "011") && str_eq(id, "001020D") {
        Some(MacroIcon::CrafterGreen1)
    } else if str_eq(key, "012") && str_eq(id, "001020E") {
        Some(MacroIcon::CrafterGreen2)
    } else if str_eq(key, "013") && str_eq(id, "001020F") {
        Some(MacroIcon::CrafterGreen3)
    } else if str_eq(key, "014") && str_eq(id, "00005E9") {
        Some(MacroIcon::ItemHammer)
    } else if str_eq(key, "015") && str_eq(id, "000061B") {
        Some(MacroIcon::ItemSword)
    } else if str_eq(key, "016") && str_eq(id, "000064D") {
        Some(MacroIcon::ItemShield)
    } else if str_eq(key, "017") && str_eq(id, "000067E") {
        Some(MacroIcon::ItemRing)
    } else if str_eq(key, "018") && str_eq(id, "00006B1") {
        Some(MacroIcon::ItemShoes)
    } else if str_eq(key, "019") && str_eq(id, "00006E2") {
        Some(MacroIcon::ItemHat)
    } else if str_eq(key, "01A") && str_eq(id, "0000715") {
        Some(MacroIcon::ItemBottle)
    } else if str_eq(key, "01B") && str_eq(id, "0000746") {
        Some(MacroIcon::ItemBread)
    } else if str_eq(key, "01C") && str_eq(id, "0010221") {
        Some(MacroIcon::Gatherer1)
    } else if str_eq(key, "01D") && str_eq(id, "0010222") {
        Some(MacroIcon::Gatherer2)
    } else if str_eq(key, "01E") && str_eq(id, "0010223") {
        Some(MacroIcon::Gatherer3)
    } else if str_eq(key, "01F") && str_eq(id, "0010271") {
        Some(MacroIcon::Number0)
    } else if str_eq(key, "020") && str_eq(id, "0010272") {
        Some(MacroIcon::Number1)
    } else if str_eq(key, "021") && str_eq(id, "0010273") {
        Some(MacroIcon::Number2)
    } else if str_eq(key, "022") && str_eq(id, "0010274") {
        Some(MacroIcon::Number3)
    } else if str_eq(key, "023") && str_eq(id, "0010275") {
        Some(MacroIcon::Number4)
    } else if str_eq(key, "024") && str_eq(id, "0010276") {
        Some(MacroIcon::Number5)
    } else if str_eq(key, "025") && str_eq(id, "0010277") {
        Some(MacroIcon::Number6)
    } else if str_eq(key, "026") && str_eq(id, "0010278") {
        Some(MacroIcon::Number7)
    } else if str_eq(key, "027") && str_eq(id, "0010279") {
        Some(MacroIcon::Number8)
    } else if str_eq(key, "028") && str_eq(id, "001027A") {
        Some(MacroIcon::Number9)
    } else if str_eq(key, "029") && str_eq(id, "001027B") {
        Some(MacroIcon::Number10)
    } else if str_eq(key, "02A") && str_eq(id, "0010285") {
        Some(MacroIcon::InverseNumber0)
    } else if str_eq(key, "02B") && str_eq(id, "0010286") {
        Some(MacroIcon::InverseNumber1)
    } else if str_eq(key, "02C") && str_eq(id, "0010287") {
        Some(MacroIcon::InverseNumber2)
    } else if str_eq(key, "02D") && str_eq(id, "0010288") {
        Some(MacroIcon::InverseNumber3)
    } else if str_eq(key, "02E") && str_eq(id, "0010289") {
        Some(MacroIcon::InverseNumber4)
    } else if str_eq(key, "02F") && str_eq(id, "001028A") {
        Some(MacroIcon::InverseNumber5)
    } else if str_eq(key, "030") && str_eq(id, "001028B") {
        Some(MacroIcon::InverseNumber6)
    } else if str_eq(key, "031") && str_eq(id, "001028C") {
        Some(MacroIcon::InverseNumber7)
    } else if str_eq(key, "032") && str_eq(id, "001028D") {
        Some(MacroIcon::InverseNumber8)
    } else if str_eq(key, "033") && str_eq(id, "001028E") {
        Some(MacroIcon::InverseNumber9)
    } else if str_eq(key, "034") && str_eq(id, "001028F") {
        Some(MacroIcon::InverseNumber10)
    } else if str_eq(key, "035") && str_eq(id, "00102FD") {
        Some(MacroIcon::SymbolArrowLeft)
    } else if str_eq(key, "036") && str_eq(id, "00102FE") {
        Some(MacroIcon::SymbolArrowRight)
    } else if str_eq(key, "037") && str_eq(id, "00102FF") {
        Some(MacroIcon::SymbolArrowUp)
    } else if str_eq(key, "038") && str_eq(id, "0010300") {
        Some(MacroIcon::SymbolArrowDown)
    } else if str_eq(key, "039") && str_eq(id, "0010301") {
        Some(MacroIcon::SymbolCircle)
    } else if str_eq(key, "03A") && str_eq(id, "0010302") {
        Some(MacroIcon::SymbolTriangle)
    } else if str_eq(key, "03B") && str_eq(id, "0010303") {
        Some(MacroIcon::SymbolSquare)
    } else if str_eq(key, "03C") && str_eq(id, "0010304") {
        Some(MacroIcon::SymbolX)
    } else if str_eq(key, "03D") && str_eq(id, "0010305") {
        Some(MacroIcon::SymbolNo)
    } else if str_eq(key, "03E") && str_eq(id, "0010306") {
        Some(MacroIcon::SymbolWarning)
    } else if str_eq(key, "03F") && str_eq(id, "0010307") {
        Some(MacroIcon::SymbolCheck)
    } else if str_eq(key, "040") && str_eq(id, "0010308") {
        Some(MacroIcon::SymbolStar)
    } else if str_eq(key, "041") && str_eq(id, "0010309") {
        Some(MacroIcon::SymbolQuestion)
    } else if str_eq(key, "042") && str_eq(id, "001030A") {
        Some(MacroIcon::SymbolExclamation)
    } else if str_eq(key, "043") && str_eq(id, "001030B") {
        Some(MacroIcon::SymbolPlus)
    } else if str_eq(key, "044") && str_eq(id, "001030C") {
        Some(MacroIcon::SymbolMinus)
    } else if str_eq(key, "045") && str_eq(id, "001030D") {
        Some(MacroIcon::SymbolClock)
    } else if str_eq(key, "046") && str_eq(id, "001030E") {
        Some(MacroIcon::SymbolBulb)
    } else if str_eq(key, "047") && str_eq(id, "001030F") {
        Some(MacroIcon::SymbolCog)
    } else if str_eq(key, "048") && str_eq(id, "0010310") {
        Some(MacroIcon::SymbolSearch)
    } else if str_eq(key, "049") && str_eq(id, "0010311") {
        Some(MacroIcon::SymbolSpeech)
    } else if str_eq(key, "04A") && str_eq(id, "0010312") {
        Some(MacroIcon::SymbolHeart)
    } else if str_eq(key, "04B") && str_eq(id, "0010313") {
        Some(MacroIcon::SymbolSpade)
    } else if str_eq(key, "04C") && str_eq(id, "0010314") {
        Some(MacroIcon::SymbolClub)
    } else if str_eq(key, "04D") && str_eq(id, "0010315") {
        Some(MacroIcon::SymbolDiamond)
    } else if str_eq(key, "04E") && str_eq(id, "0010316") {
        Some(MacroIcon::SymbolDice)
    } else if str_eq(key, "04F") && str_eq(id, "0004E27") {
        Some(MacroIcon::CrystalFire)
    } else if str_eq(key, "050") && str_eq(id, "0004E29") {
        Some(MacroIcon::CrystalIce)
    } else if str_eq(key, "051") && str_eq(id, "0004E2A") {
        Some(MacroIcon::CrystalWind)
    } else if str_eq(key, "052") && str_eq(id, "0004E2C") {
        Some(MacroIcon::CrystalEarth)
    } else if str_eq(key, "053") && str_eq(id, "0004E2B") {
        Some(MacroIcon::CrystalLightning)
    } else if str_eq(key, "054") && str_eq(id, "0004E28") {
        Some(MacroIcon::CrystalWater)
    } else {
        None
    }
}

/// Returns the key and the id that stand for an icon in a macro's records,
/// in this order.
pub fn macro_icon_to_key_and_id(macro_icon: &MacroIcon) -> (pair: (&'static str, &'static str))
    ensures
        pair.0@ == icon_key(*macro_icon),
        pair.1@ == icon_id(*macro_icon),
{
    match macro_icon {
        MacroIcon::NoIcon => ("000", "0000000"),
        MacroIcon::DefaultIcon => ("001", "00101D1"),
        MacroIcon::DPS1 => ("002", "0010235"),
        MacroIcon::DPS2 => ("003", "0010236"),
        MacroIcon::DPS3 => ("004", "0010237"),
        MacroIcon::Tank1 => ("005", "0010249"),
        MacroIcon::Tank2 => ("006", "001024A"),
        MacroIcon::Tank3 => ("007", "001024B"),
        MacroIcon::Healer1 => ("008", "001025D"),
        MacroIcon::Healer2 => ("009", "001025E"),
        MacroIcon::Healer3 => ("00A", "001025F"),
        MacroIcon::CrafterPurple1 => ("00B", "00101E5"),
        MacroIcon::CrafterPurple2 => ("00C", "00101E6"),
        MacroIcon::CrafterPurple3 => ("00D", "00101E7"),
        MacroIcon::CrafterYellow1 => ("00E", "00101F9"),
        MacroIcon::CrafterYellow2 => ("00F", "00101FA"),
        MacroIcon::CrafterYellow3 => ("010", "00101FB"),
        MacroIcon::CrafterGreen1 => ("011", "001020D"),
        MacroIcon::CrafterGreen2 => ("012", "001020E"),
        MacroIcon::CrafterGreen3 => ("013", "001020F"),
        MacroIcon::ItemHammer => ("014", "00005E9"),
        MacroIcon::ItemSword => ("015", "000061B"),
        MacroIcon::ItemShield => ("016", "000064D"),
        MacroIcon::ItemRing => ("017", "000067E"),
        MacroIcon::ItemShoes => ("018", "00006B1"),
        MacroIcon::ItemHat => ("019", "00006E2"),
        MacroIcon::ItemBottle => ("01A", "0000715"),
        MacroIcon::ItemBread => ("01B", "0000746"),
        MacroIcon::Gatherer1 => ("01C", "0010221"),
        MacroIcon::Gatherer2 => ("01D", "0010222"),
        MacroIcon::Gatherer3 => ("01E", "0010223"),
        MacroIcon::Number0 => ("01F", "0010271"),
        MacroIcon::Number1 => ("020", "0010272"),
        MacroIcon::Number2 => ("021", "0010273"),
        MacroIcon::Number3 => ("022", "0010274"),
        MacroIcon::Number4 => ("023", "0010275"),
        MacroIcon::Number5 => ("024", "0010276"),
        MacroIcon::Number6 => ("025", "0010277"),
        MacroIcon::Number7 => ("026", "0010278"),
        MacroIcon::Number8 => ("027", "0010279"),
        MacroIcon::Number9 => ("028", "001027A"),
        MacroIcon::Number10 => ("029", "001027B"),
        MacroIcon::InverseNumber0 => ("02A", "0010285"),
        MacroIcon::InverseNumber1 => ("02B", "0010286"),
        MacroIcon::InverseNumber2 => ("02C", "0010287"),
        MacroIcon::InverseNumber3 => ("02D", "0010288"),
        MacroIcon::InverseNumber4 => ("02E", "0010289"),
        MacroIcon::InverseNumber5 => ("02F", "001028A"),
        MacroIcon::InverseNumber6 => ("030", "001028B"),
        MacroIcon::InverseNumber7 => ("031", "001028C"),
        MacroIcon::InverseNumber8 => ("032", "001028D"),
        MacroIcon::InverseNumber9 => ("033", "001028E"),
        MacroIcon::InverseNumber10 => ("034", "001028F"),
        MacroIcon::SymbolArrowLeft => ("035", "00102FD"),
        MacroIcon::SymbolArrowRight => ("036", "00102FE"),
        MacroIcon::SymbolArrowUp => ("037", "00102FF"),
        MacroIcon::SymbolArrowDown => ("038", "0010300"),
        MacroIcon::SymbolCircle => ("039", "0010301"),
        MacroIcon::SymbolTriangle => ("03A", "0010302"),
        MacroIcon::SymbolSquare => ("03B", "0010303"),
        MacroIcon::SymbolX => ("03C", "0010304"),
        MacroIcon::SymbolNo => ("03D", "0010305"),
        MacroIcon::SymbolWarning => ("03E", "0010306"),
        MacroIcon::SymbolCheck => ("03F", "0010307"),
        MacroIcon::SymbolStar => ("040", "0010308"),
        MacroIcon::SymbolQuestion => ("041", "0010309"),
        MacroIcon::SymbolExclamation => ("042", "001030A"),
        MacroIcon::SymbolPlus => ("043", "001030B"),
        MacroIcon::SymbolMinus => ("044", "001030C"),
        MacroIcon::SymbolClock => ("045", "001030D"),
        MacroIcon::SymbolBulb => ("046", "001030E"),
        MacroIcon::SymbolCog => ("047", "001030F"),
        MacroIcon::SymbolSearch => ("048", "0010310"),
        MacroIcon::SymbolSpeech => ("049", "0010311"),
        MacroIcon::SymbolHeart => ("04A", "0010312"),
        MacroIcon::SymbolSpade => ("04B", "0010313"),
        MacroIcon::SymbolClub => ("04C", "0010314"),
        MacroIcon::SymbolDiamond => ("04D", "0010315"),
        MacroIcon::SymbolDice => ("04E", "0010316"),
        MacroIcon::CrystalFire => ("04F", "0004E27"),
        MacroIcon::CrystalIce => ("050", "0004E29"),
        MacroIcon::CrystalWind => ("051", "0004E2A"),
        MacroIcon::CrystalEarth => ("052", "0004E2C"),
        MacroIcon::CrystalLightning => ("053", "0004E2B"),
        MacroIcon::CrystalWater => ("054", "0004E28"),
    }
}

/// Reveals what the key of every icon holds.
proof fn lemma_reveal_keys()
    ensures
        "000"@ == seq!['0', '0', '0'],
        "001"@ == seq!['0', '0', '1'],
        "002"@ == seq!['0', '0', '2'],
        "003"@ == seq!['0', '0', '3'],
        "004"@ == seq!['0', '0', '4'],
        "005"@ == seq!['0', '0', '5'],
        "006"@ == seq!['0', '0', '6'],
        "007"@ == seq!['0', '0', '7'],
        "008"@ == seq!['0', '0', '8'],
        "009"@ == seq!['0', '0', '9'],
        "00A"@ == seq!['0', '0', 'A'],
        "00B"@ == seq!['0', '0', 'B'],
        "00C"@ == seq!['0', '0', 'C'],
        "00D"@ == seq!['0', '0', 'D'],
        "00E"@ == seq!['0', '0', 'E'],
        "00F"@ == seq!['0', '0', 'F'],
        "010"@ == seq!['0', '1', '0'],
        "011"@ == seq!['0', '1', '1'],
        "012"@ == seq!['0', '1', '2'],
        "013"@ == seq!['0', '1', '3'],
        "014"@ == seq!['0', '1', '4'],
        "015"@ == seq!['0', '1', '5'],
        "016"@ == seq!['0', '1', '6'],
        "017"@ == seq!['0', '1', '7'],
        "018"@ == seq!['0', '1', '8'],
        "019"@ == seq!['0', '1', '9'],
        "01A"@ == seq!['0', '1', 'A'],
        "01B"@ == seq!['0', '1', 'B'],
        "01C"@ == seq!['0', '1', 'C'],
        "01D"@ == seq!['0', '1', 'D'],
        "01E"@ == seq!['0', '1', 'E'],
        "01F"@ == seq!['0', '1', 'F'],
        "020"@ == seq!['0', '2', '0'],
        "021"@ == seq!['0', '2', '1'],
        "022"@ == seq!['0', '2', '2'],
        "023"@ == seq!['0', '2', '3'],
        "024"@ == seq!['0', '2', '4'],
        "025"@ == seq!['0', '2', '5'],
        "026"@ == seq!['0', '2', '6'],
        "027"@ == seq!['0', '2', '7'],
        "028"@ == seq!['0', '2', '8'],
        "029"@ == seq!['0', '2', '9'],
        "02A"@ == seq!['0', '2', 'A'],
        "02B"@ == seq!['0', '2', 'B'],
        "02C"@ == seq!['0', '2', 'C'],
        "02D"@ == seq!['0', '2', 'D'],
        "02E"@ == seq!['0', '2', 'E'],
        "02F"@ == seq!['0', '2', 'F'],
        "030"@ == seq!['0', '3', '0'],
        "031"@ == seq!['0', '3', '1'],
        "032"@ == seq!['0', '3', '2'],
        "033"@ == seq!['0', '3', '3'],
        "034"@ == seq!['0', '3', '4'],
        "035"@ == seq!['0', '3', '5'],
        "036"@ == seq!['0', '3', '6'],
        "037"@ == seq!['0', '3', '7'],
        "038"@ == seq!['0', '3', '8'],
        "039"@ == seq!['0', '3', '9'],
        "03A"@ == seq!['0', '3', 'A'],
        "03B"@ == seq!['0', '3', 'B'],
        "03C"@ == seq!['0', '3', 'C'],
        "03D"@ == seq!['0', '3', 'D'],
        "03E"@ == seq!['0', '3', 'E'],
        "03F"@ == seq!['0', '3', 'F'],
        "040"@ == seq!['0', '4', '0'],
        "041"@ == seq!['0', '4', '1'],
        "042"@ == seq!['0', '4', '2'],
        "043"@ == seq!['0', '4', '3'],
        "044"@ == seq!['0', '4', '4'],
        "045"@ == seq!['0', '4', '5'],
        "046"@ == seq!['0', '4', '6'],
        "047"@ == seq!['0', '4', '7'],
        "048"@ == seq!['0', '4', '8'],
        "049"@ == seq!['0', '4', '9'],
        "04A"@ == seq!['0', '4', 'A'],
        "04B"@ == seq!['0', '4', 'B'],
        "04C"@ == seq!['0', '4', 'C'],
        "04D"@ == seq!['0', '4', 'D'],
        "04E"@ == seq!['0', '4', 'E'],
        "04F"@ == seq!['0', '4', 'F'],
        "050"@ == seq!['0', '5', '0'],
        "051"@ == seq!['0', '5', '1'],
        "052"@ == seq!['0', '5', '2'],
        "053"@ == seq!['0', '5', '3'],
        "054"@ == seq!['0', '5', '4'],
{
    reveal_strlit("000");
    reveal_strlit("001");
    reveal_strlit("002");
    reveal_strlit("003");
    reveal_strlit("004");
    reveal_strlit("005");
    reveal_strlit("006");
    reveal_strlit("007");
    reveal_strlit("008");
    reveal_strlit("009");
    reveal_strlit("00A");
    reveal_strlit("00B");
    reveal_strlit("00C");
    reveal_strlit("00D");
    reveal_strlit("00E");
    reveal_strlit("00F");
    reveal_strlit("010");
    reveal_strlit("011");
    reveal_strlit("012");
    reveal_strlit("013");
    reveal_strlit("014");
    reveal_strlit("015");
    reveal_strlit("016");
    reveal_strlit("017");
    reveal_strlit("018");
    reveal_strlit("019");
    reveal_strlit("01A");
    reveal_strlit("01B");
    reveal_strlit("01C");
    reveal_strlit("01D");
    reveal_strlit("01E");
    reveal_strlit("01F");
    reveal_strlit("020");
    reveal_strlit("021");
    reveal_strlit("022");
    reveal_strlit("023");
    reveal_strlit("024");
    reveal_strlit("025");
    reveal_strlit("026");
    reveal_strlit("027");
    reveal_strlit("028");
    reveal_strlit("029");
    reveal_strlit("02A");
    reveal_strlit("02B");
    reveal_strlit("02C");
    reveal_strlit("02D");
    reveal_strlit("02E");
    reveal_strlit("02F");
    reveal_strlit("030");
    reveal_strlit("031");
    reveal_strlit("032");
    reveal_strlit("033");
    reveal_strlit("034");
    reveal_strlit("035");
    reveal_strlit("036");
    reveal_strlit("037");
    reveal_strlit("038");
    reveal_strlit("039");
    reveal_strlit("03A");
    reveal_strlit("03B");
    reveal_strlit("03C");
    reveal_strlit("03D");
    reveal_strlit("03E");
    reveal_strlit("03F");
    reveal_strlit("040");
    reveal_strlit("041");
    reveal_strlit("042");
    reveal_strlit("043");
    reveal_strlit("044");
    reveal_strlit("045");
    reveal_strlit("046");
    reveal_strlit("047");
    reveal_strlit("048");
    reveal_strlit("049");
    reveal_strlit("04A");
    reveal_strlit("04B");
    reveal_strlit("04C");
    reveal_strlit("04D");
    reveal_strlit("04E");
    reveal_strlit("04F");
    reveal_strlit("050");
    reveal_strlit("051");
    reveal_strlit("052");
    reveal_strlit("053");
    reveal_strlit("054");
    assert("000"@ =~= seq!['0', '0', '0']);
    assert("001"@ =~= seq!['0', '0', '1']);
    assert("002"@ =~= seq!['0', '0', '2']);
    assert("003"@ =~= seq!['0', '0', '3']);
    assert("004"@ =~= seq!['0', '0', '4']);
    assert("005"@ =~= seq!['0', '0', '5']);
    assert("006"@ =~= seq!['0', '0', '6']);
    assert("007"@ =~= seq!['0', '0', '7']);
    assert("008"@ =~= seq!['0', '0', '8']);
    assert("009"@ =~= seq!['0', '0', '9']);
    assert("00A"@ =~= seq!['0', '0', 'A']);
    assert("00B"@ =~= seq!['0', '0', 'B']);
    assert("00C"@ =~= seq!['0', '0', 'C']);
    assert("00D"@ =~= seq!['0', '0', 'D']);
    assert("00E"@ =~= seq!['0', '0', 'E']);
    assert("00F"@ =~= seq!['0', '0', 'F']);
    assert("010"@ =~= seq!['0', '1', '0']);
    assert("011"@ =~= seq!['0', '1', '1']);
    assert("012"@ =~= seq!['0', '1', '2']);
    assert("013"@ =~= seq!['0', '1', '3']);
    assert("014"@ =~= seq!['0', '1', '4']);
    assert("015"@ =~= seq!['0', '1', '5']);
    assert("016"@ =~= seq!['0', '1', '6']);
    assert("017"@ =~= seq!['0', '1', '7']);
    assert("018"@ =~= seq!['0', '1', '8']);
    assert("019"@ =~= seq!['0', '1', '9']);
    assert("01A"@ =~= seq!['0', '1', 'A']);
    assert("01B"@ =~= seq!['0', '1', 'B']);
    assert("01C"@ =~= seq!['0', '1', 'C']);
    assert("01D"@ =~= seq!['0', '1', 'D']);
    assert("01E"@ =~= seq!['0', '1', 'E']);
    assert("01F"@ =~= seq!['0', '1', 'F']);
    assert("020"@ =~= seq!['0', '2', '0']);
    assert("021"@ =~= seq!['0', '2', '1']);
    assert("022"@ =~= seq!['0', '2', '2']);
    assert("023"@ =~= seq!['0', '2', '3']);
    assert("024"@ =~= seq!['0', '2', '4']);
    assert("025"@ =~= seq!['0', '2', '5']);
    assert("026"@ =~= seq!['0', '2', '6']);
    assert("027"@ =~= seq!['0', '2', '7']);
    assert("028"@ =~= seq!['0', '2', '8']);
    assert("029"@ =~= seq!['0', '2', '9']);
    assert("02A"@ =~= seq!['0', '2', 'A']);
    assert("02B"@ =~= seq!['0', '2', 'B']);
    assert("02C"@ =~= seq!['0', '2', 'C']);
    assert("02D"@ =~= seq!['0', '2', 'D']);
    assert("02E"@ =~= seq!['0', '2', 'E']);
    assert("02F"@ =~= seq!['0', '2', 'F']);
    assert("030"@ =~= seq!['0', '3', '0']);
    assert("031"@ =~= seq!['0', '3', '1']);
    assert("032"@ =~= seq!['0', '3', '2']);
    assert("033"@ =~= seq!['0', '3', '3']);
    assert("034"@ =~= seq!['0', '3', '4']);
    assert("035"@ =~= seq!['0', '3', '5']);
    assert("036"@ =~= seq!['0', '3', '6']);
    assert("037"@ =~= seq!['0', '3', '7']);
    assert("038"@ =~= seq!['0', '3', '8']);
    assert("039"@ =~= seq!['0', '3', '9']);
    assert("03A"@ =~= seq!['0', '3', 'A']);
    assert("03B"@ =~= seq!['0', '3', 'B']);
    assert("03C"@ =~= seq!['0', '3', 'C']);
    assert("03D"@ =~= seq!['0', '3', 'D']);
    assert("03E"@ =~= seq!['0', '3', 'E']);
    assert("03F"@ =~= seq!['0', '3', 'F']);
    assert("040"@ =~= seq!['0', '4', '0']);
    assert("041"@ =~= seq!['0', '4', '1']);
    assert("042"@ =~= seq!['0', '4', '2']);
    assert("043"@ =~= seq!['0', '4', '3']);
    assert("044"@ =~= seq!['0', '4', '4']);
    assert("045"@ =~= seq!['0', '4', '5']);
    assert("046"@ =~= seq!['0', '4', '6']);
    assert("047"@ =~= seq!['0', '4', '7']);
    assert("048"@ =~= seq!['0', '4', '8']);
    assert("049"@ =~= seq!['0', '4', '9']);
    assert("04A"@ =~= seq!['0', '4', 'A']);
    assert("04B"@ =~= seq!['0', '4', 'B']);
    assert("04C"@ =~= seq!['0', '4', 'C']);
    assert("04D"@ =~= seq!['0', '4', 'D']);
    assert("04E"@ =~= seq!['0', '4', 'E']);
    assert("04F"@ =~= seq!['0', '4', 'F']);
    assert("050"@ =~= seq!['0', '5', '0']);
    assert("051"@ =~= seq!['0', '5', '1']);
    assert("052"@ =~= seq!['0', '5', '2']);
    assert("053"@ =~= seq!['0', '5', '3']);
    assert("054"@ =~= seq!['0', '5', '4']);
}

/// Whether a character is a hexadecimal digit, with the letters in upper
/// case.
pub open spec fn is_hex_digit(c: char) -> bool {
    ('0' <= c <= '9') || ('A' <= c <= 'F')
}

/// Whether a text is made of hexadecimal digits.
pub open spec fn is_hex_text(text: Seq<char>) -> bool {
    forall|i: int| 0 <= i < text.len() ==> is_hex_digit(#[trigger] text[i])
}

/// Every key in the table is three hexadecimal digits.
proof fn lemma_keys_are_hex()
    ensures
        "000"@.len() == 3 && is_hex_text("000"@),
        "001"@.len() == 3 && is_hex_text("001"@),
        "002"@.len() == 3 && is_hex_text("002"@),
        "003"@.len() == 3 && is_hex_text("003"@),
        "004"@.len() == 3 && is_hex_text("004"@),
        "005"@.len() == 3 && is_hex_text("005"@),
        "006"@.len() == 3 && is_hex_text("006"@),
        "007"@.len() == 3 && is_hex_text("007"@),
        "008"@.len() == 3 && is_hex_text("008"@),
        "009"@.len() == 3 && is_hex_text("009"@),
        "00A"@.len() == 3 && is_hex_text("00A"@),
        "00B"@.len() == 3 && is_hex_text("00B"@),
        "00C"@.len() == 3 && is_hex_text("00C"@),
        "00D"@.len() == 3 && is_hex_text("00D"@),
        "00E"@.len() == 3 && is_hex_text("00E"@),
        "00F"@.len() == 3 && is_hex_text("00F"@),
        "010"@.len() == 3 && is_hex_text("010"@),
        "011"@.len() == 3 && is_hex_text("011"@),
        "012"@.len() == 3 && is_hex_text("012"@),
        "013"@.len() == 3 && is_hex_text("013"@),
        "014"@.len() == 3 && is_hex_text("014"@),
        "015"@.len() == 3 && is_hex_text("015"@),
        "016"@.len() == 3 && is_hex_text("016"@),
        "017"@.len() == 3 && is_hex_text("017"@),
        "018"@.len() == 3 && is_hex_text("018"@),
        "019"@.len() == 3 && is_hex_text("019"@),
        "01A"@.len() == 3 && is_hex_text("01A"@),
        "01B"@.len() == 3 && is_hex_text("01B"@),
        "01C"@.len() == 3 && is_hex_text("01C"@),
        "01D"@.len() == 3 && is_hex_text("01D"@),
        "01E"@.len() == 3 && is_hex_text("01E"@),
        "01F"@.len() == 3 && is_hex_text("01F"@),
        "020"@.len() == 3 && is_hex_text("020"@),
        "021"@.len() == 3 && is_hex_text("021"@),
        "022"@.len() == 3 && is_hex_text("022"@),
        "023"@.len() == 3 && is_hex_text("023"@),
        "024"@.len() == 3 && is_hex_text("024"@),
        "025"@.len() == 3 && is_hex_text("025"@),
        "026"@.len() == 3 && is_hex_text("026"@),
        "027"@.len() == 3 && is_hex_text("027"@),
        "028"@.len() == 3 && is_hex_text("028"@),
        "029"@.len() == 3 && is_hex_text("029"@),
        "02A"@.len() == 3 && is_hex_text("02A"@),
        "02B"@.len() == 3 && is_hex_text("02B"@),
        "02C"@.len() == 3 && is_hex_text("02C"@),
        "02D"@.len() == 3 && is_hex_text("02D"@),
        "02E"@.len() == 3 && is_hex_text("02E"@),
        "02F"@.len() == 3 && is_hex_text("02F"@),
        "030"@.len() == 3 && is_hex_text("030"@),
        "031"@.len() == 3 && is_hex_text("031"@),
        "032"@.len() == 3 && is_hex_text("032"@),
        "033"@.len() == 3 && is_hex_text("033"@),
        "034"@.len() == 3 && is_hex_text("034"@),
        "035"@.len() == 3 && is_hex_text("035"@),
        "036"@.len() == 3 && is_hex_text("036"@),
        "037"@.len() == 3 && is_hex_text("037"@),
        "038"@.len() == 3 && is_hex_text("038"@),
        "039"@.len() == 3 && is_hex_text("039"@),
        "03A"@.len() == 3 && is_hex_text("03A"@),
        "03B"@.len() == 3 && is_hex_text("03B"@),
        "03C"@.len() == 3 && is_hex_text("03C"@),
        "03D"@.len() == 3 && is_hex_text("03D"@),
        "03E"@.len() == 3 && is_hex_text("03E"@),
        "03F"@.len() == 3 && is_hex_text("03F"@),
        "040"@.len() == 3 && is_hex_text("040"@),
        "041"@.len() == 3 && is_hex_text("041"@),
        "042"@.len() == 3 && is_hex_text("042"@),
        "043"@.len() == 3 && is_hex_text("043"@),
        "044"@.len() == 3 && is_hex_text("044"@),
        "045"@.len() == 3 && is_hex_text("045"@),
        "046"@.len() == 3 && is_hex_text("046"@),
        "047"@.len() == 3 && is_hex_text("047"@),
        "048"@.len() == 3 && is_hex_text("048"@),
        "049"@.len() == 3 && is_hex_text("049"@),
        "04A"@.len() == 3 && is_hex_text("04A"@),
        "04B"@.len() == 3 && is_hex_text("04B"@),
        "04C"@.len() == 3 && is_hex_text("04C"@),
        "04D"@.len() == 3 && is_hex_text("04D"@),
        "04E"@.len() == 3 && is_hex_text("04E"@),
        "04F"@.len() == 3 && is_hex_text("04F"@),
        "050"@.len() == 3 && is_hex_text("050"@),
        "051"@.len() == 3 && is_hex_text("051"@),
        "052"@.len() == 3 && is_hex_text("052"@),
        "053"@.len() == 3 && is_hex_text("053"@),
        "054"@.len() == 3 && is_hex_text("054"@),
{
    assert("000"@.len() == 3 && is_hex_text("000"@)) by {
        reveal_strlit("000");
    }
    assert("001"@.len() == 3 && is_hex_text("001"@)) by {
        reveal_strlit("001");
    }
    assert("002"@.len() == 3 && is_hex_text("002"@)) by {
        reveal_strlit("002");
    }
    assert("003"@.len() == 3 && is_hex_text("003"@)) by {
        reveal_strlit("003");
    }
    assert("004"@.len() == 3 && is_hex_text("004"@)) by {
        reveal_strlit("004");
    }
    assert("005"@.len() == 3 && is_hex_text("005"@)) by {
        reveal_strlit("005");
    }
    assert("006"@.len() == 3 && is_hex_text("006"@)) by {
        reveal_strlit("006");
    }
    assert("007"@.len() == 3 && is_hex_text("007"@)) by {
        reveal_strlit("007");
    }
    assert("008"@.len() == 3 && is_hex_text("008"@)) by {
        reveal_strlit("008");
    }
    assert("009"@.len() == 3 && is_hex_text("009"@)) by {
        reveal_strlit("009");
    }
    assert("00A"@.len() == 3 && is_hex_text("00A"@)) by {
        reveal_strlit("00A");
    }
    assert("00B"@.len() == 3 && is_hex_text("00B"@)) by {
        reveal_strlit("00B");
    }
    assert("00C"@.len() == 3 && is_hex_text("00C"@)) by {
        reveal_strlit("00C");
    }
    assert("00D"@.len() == 3 && is_hex_text("00D"@)) by {
        reveal_strlit("00D");
    }
    assert("00E"@.len() == 3 && is_hex_text("00E"@)) by {
        reveal_strlit("00E");
    }
    assert("00F"@.len() == 3 && is_hex_text("00F"@)) by {
        reveal_strlit("00F");
    }
    assert("010"@.len() == 3 && is_hex_text("010"@)) by {
        reveal_strlit("010");
    }
    assert("011"@.len() == 3 && is_hex_text("011"@)) by {
        reveal_strlit("011");
    }
    assert("012"@.len() == 3 && is_hex_text("012"@)) by {
        reveal_strlit("012");
    }
    assert("013"@.len() == 3 && is_hex_text("013"@)) by {
        reveal_strlit("013");
    }
    assert("014"@.len() == 3 && is_hex_text("014"@)) by {
        reveal_strlit("014");
    }
    assert("015"@.len() == 3 && is_hex_text("015"@)) by {
        reveal_strlit("015");
    }
    assert("016"@.len() == 3 && is_hex_text("016"@)) by {
        reveal_strlit("016");
    }
    assert("017"@.len() == 3 && is_hex_text("017"@)) by {
        reveal_strlit("017");
    }
    assert("018"@.len() == 3 && is_hex_text("018"@)) by {
        reveal_strlit("018");
    }
    assert("019"@.len() == 3 && is_hex_text("019"@)) by {
        reveal_strlit("019");
    }
    assert("01A"@.len() == 3 && is_hex_text("01A"@)) by {
        reveal_strlit("01A");
    }
    assert("01B"@.len() == 3 && is_hex_text("01B"@)) by {
        reveal_strlit("01B");
    }
    assert("01C"@.len() == 3 && is_hex_text("01C"@)) by {
        reveal_strlit("01C");
    }
    assert("01D"@.len() == 3 && is_hex_text("01D"@)) by {
        reveal_strlit("01D");
    }
    assert("01E"@.len() == 3 && is_hex_text("01E"@)) by {
        reveal_strlit("01E");
    }
    assert("01F"@.len() == 3 && is_hex_text("01F"@)) by {
        reveal_strlit("01F");
    }
    assert("020"@.len() == 3 && is_hex_text("020"@)) by {
        reveal_strlit("020");
    }
    assert("021"@.len() == 3 && is_hex_text("021"@)) by {
        reveal_strlit("021");
    }
    assert("022"@.len() == 3 && is_hex_text("022"@)) by {
        reveal_strlit("022");
    }
    assert("023"@.len() == 3 && is_hex_text("023"@)) by {
        reveal_strlit("023");
    }
    assert("024"@.len() == 3 && is_hex_text("024"@)) by {
        reveal_strlit("024");
    }
    assert("025"@.len() == 3 && is_hex_text("025"@)) by {
        reveal_strlit("025");
    }
    assert("026"@.len() == 3 && is_hex_text("026"@)) by {
        reveal_strlit("026");
    }
    assert("027"@.len() == 3 && is_hex_text("027"@)) by {
        reveal_strlit("027");
    }
    assert("028"@.len() == 3 && is_hex_text("028"@)) by {
        reveal_strlit("028");
    }
    assert("029"@.len() == 3 && is_hex_text("029"@)) by {
        reveal_strlit("029");
    }
    assert("02A"@.len() == 3 && is_hex_text("02A"@)) by {
        reveal_strlit("02A");
    }
    assert("02B"@.len() == 3 && is_hex_text("02B"@)) by {
        reveal_strlit("02B");
    }
    assert("02C"@.len() == 3 && is_hex_text("02C"@)) by {
        reveal_strlit("02C");
    }
    assert("02D"@.len() == 3 && is_hex_text("02D"@)) by {
        reveal_strlit("02D");
    }
    assert("02E"@.len() == 3 && is_hex_text("02E"@)) by {
        reveal_strlit("02E");
    }
    assert("02F"@.len() == 3 && is_hex_text("02F"@)) by {
        reveal_strlit("02F");
    }
    assert("030"@.len() == 3 && is_hex_text("030"@)) by {
        reveal_strlit("030");
    }
    assert("031"@.len() == 3 && is_hex_text("031"@)) by {
        reveal_strlit("031");
    }
    assert("032"@.len() == 3 && is_hex_text("032"@)) by {
        reveal_strlit("032");
    }
    assert("033"@.len() == 3 && is_hex_text("033"@)) by {
        reveal_strlit("033");
    }
    assert("034"@.len() == 3 && is_hex_text("034"@)) by {
        reveal_strlit("034");
    }
    assert("035"@.len() == 3 && is_hex_text("035"@)) by {
        reveal_strlit("035");
    }
    assert("036"@.len() == 3 && is_hex_text("036"@)) by {
        reveal_strlit("036");
    }
    assert("037"@.len() == 3 && is_hex_text("037"@)) by {
        reveal_strlit("037");
    }
    assert("038"@.len() == 3 && is_hex_text("038"@)) by {
        reveal_strlit("038");
    }
    assert("039"@.len() == 3 && is_hex_text("039"@)) by {
        reveal_strlit("039");
    }
    assert("03A"@.len() == 3 && is_hex_text("03A"@)) by {
        reveal_strlit("03A");
    }
    assert("03B"@.len() == 3 && is_hex_text("03B"@)) by {
        reveal_strlit("03B");
    }
    assert("03C"@.len() == 3 && is_hex_text("03C"@)) by {
        reveal_strlit("03C");
    }
    assert("03D"@.len() == 3 && is_hex_text("03D"@)) by {
        reveal_strlit("03D");
    }
    assert("03E"@.len() == 3 && is_hex_text("03E"@)) by {
        reveal_strlit("03E");
    }
    assert("03F"@.len() == 3 && is_hex_text("03F"@)) by {
        reveal_strlit("03F");
    }
    assert("040"@.len() == 3 && is_hex_text("040"@)) by {
        reveal_strlit("040");
    }
    assert("041"@.len() == 3 && is_hex_text("041"@)) by {
        reveal_strlit("041");
    }
    assert("042"@.len() == 3 && is_hex_text("042"@)) by {
        reveal_strlit("042");
    }
    assert("043"@.len() == 3 && is_hex_text("043"@)) by {
        reveal_strlit("043");
    }
    assert("044"@.len() == 3 && is_hex_text("044"@)) by {
        reveal_strlit("044");
    }
    assert("045"@.len() == 3 && is_hex_text("045"@)) by {
        reveal_strlit("045");
    }
    assert("046"@.len() == 3 && is_hex_text("046"@)) by {
        reveal_strlit("046");
    }
    assert("047"@.len() == 3 && is_hex_text("047"@)) by {
        reveal_strlit("047");
    }
    assert("048"@.len() == 3 && is_hex_text("048"@)) by {
        reveal_strlit("048");
    }
    assert("049"@.len() == 3 && is_hex_text("049"@)) by {
        reveal_strlit("049");
    }
    assert("04A"@.len() == 3 && is_hex_text("04A"@)) by {
        reveal_strlit("04A");
    }
    assert("04B"@.len() == 3 && is_hex_text("04B"@)) by {
        reveal_strlit("04B");
    }
    assert("04C"@.len() == 3 && is_hex_text("04C"@)) by {
        reveal_strlit("04C");
    }
    assert("04D"@.len() == 3 && is_hex_text("04D"@)) by {
        reveal_strlit("04D");
    }
    assert("04E"@.len() == 3 && is_hex_text("04E"@)) by {
        reveal_strlit("04E");
    }
    assert("04F"@.len() == 3 && is_hex_text("04F"@)) by {
        reveal_strlit("04F");
    }
    assert("050"@.len() == 3 && is_hex_text("050"@)) by {
        reveal_strlit("050");
    }
    assert("051"@.len() == 3 && is_hex_text("051"@)) by {
        reveal_strlit("051");
    }
    assert("052"@.len() == 3 && is_hex_text("052"@)) by {
        reveal_strlit("052");
    }
    assert("053"@.len() == 3 && is_hex_text("053"@)) by {
        reveal_strlit("053");
    }
    assert("054"@.len() == 3 && is_hex_text("054"@)) by {
        reveal_strlit("054");
    }
}

/// Every id in the table is seven hexadecimal digits.
proof fn lemma_ids_are_hex()
    ensures
        "0000000"@.len() == 7 && is_hex_text("0000000"@),
        "00101D1"@.len() == 7 && is_hex_text("00101D1"@),
        "0010235"@.len() == 7 && is_hex_text("0010235"@),
        "0010236"@.len() == 7 && is_hex_text("0010236"@),
        "0010237"@.len() == 7 && is_hex_text("0010237"@),
        "0010249"@.len() == 7 && is_hex_text("0010249"@),
        "001024A"@.len() == 7 && is_hex_text("001024A"@),
        "001024B"@.len() == 7 && is_hex_text("001024B"@),
        "001025D"@.len() == 7 && is_hex_text("001025D"@),
        "001025E"@.len() == 7 && is_hex_text("001025E"@),
        "001025F"@.len() == 7 && is_hex_text("001025F"@),
        "00101E5"@.len() == 7 && is_hex_text("00101E5"@),
        "00101E6"@.len() == 7 && is_hex_text("00101E6"@),
        "00101E7"@.len() == 7 && is_hex_text("00101E7"@),
        "00101F9"@.len() == 7 && is_hex_text("00101F9"@),
        "00101FA"@.len() == 7 && is_hex_text("00101FA"@),
        "00101FB"@.len() == 7 && is_hex_text("00101FB"@),
        "001020D"@.len() == 7 && is_hex_text("001020D"@),
        "001020E"@.len() == 7 && is_hex_text("001020E"@),
        "001020F"@.len() == 7 && is_hex_text("001020F"@),
        "00005E9"@.len() == 7 && is_hex_text("00005E9"@),
        "000061B"@.len() == 7 && is_hex_text("000061B"@),
        "000064D"@.len() == 7 && is_hex_text("000064D"@),
        "000067E"@.len() == 7 && is_hex_text("000067E"@),
        "00006B1"@.len() == 7 && is_hex_text("00006B1"@),
        "00006E2"@.len() == 7 && is_hex_text("00006E2"@),
        "0000715"@.len() == 7 && is_hex_text("0000715"@),
        "0000746"@.len() == 7 && is_hex_text("0000746"@),
        "0010221"@.len() == 7 && is_hex_text("0010221"@),
        "0010222"@.len() == 7 && is_hex_text("0010222"@),
        "0010223"@.len() == 7 && is_hex_text("0010223"@),
        "0010271"@.len() == 7 && is_hex_text("0010271"@),
        "0010272"@.len() == 7 && is_hex_text("0010272"@),
        "0010273"@.len() == 7 && is_hex_text("0010273"@),
        "0010274"@.len() == 7 && is_hex_text("0010274"@),
        "0010275"@.len() == 7 && is_hex_text("0010275"@),
        "0010276"@.len() == 7 && is_hex_text("0010276"@),
        "0010277"@.len() == 7 && is_hex_text("0010277"@),
        "0010278"@.len() == 7 && is_hex_text("0010278"@),
        "0010279"@.len() == 7 && is_hex_text("0010279"@),
        "001027A"@.len() == 7 && is_hex_text("001027A"@),
        "001027B"@.len() == 7 && is_hex_text("001027B"@),
        "0010285"@.len() == 7 && is_hex_text("0010285"@),
        "0010286"@.len() == 7 && is_hex_text("0010286"@),
        "0010287"@.len() == 7 && is_hex_text("0010287"@),
        "0010288"@.len() == 7 && is_hex_text("0010288"@),
        "0010289"@.len() == 7 && is_hex_text("0010289"@),
        "001028A"@.len() == 7 && is_hex_text("001028A"@),
        "001028B"@.len() == 7 && is_hex_text("001028B"@),
        "001028C"@.len() == 7 && is_hex_text("001028C"@),
        "001028D"@.len() == 7 && is_hex_text("001028D"@),
        "001028E"@.len() == 7 && is_hex_text("001028E"@),
        "001028F"@.len() == 7 && is_hex_text("001028F"@),
        "00102FD"@.len() == 7 && is_hex_text("00102FD"@),
        "00102FE"@.len() == 7 && is_hex_text("00102FE"@),
        "00102FF"@.len() == 7 && is_hex_text("00102FF"@),
        "0010300"@.len() == 7 && is_hex_text("0010300"@),
        "0010301"@.len() == 7 && is_hex_text("0010301"@),
        "0010302"@.len() == 7 && is_hex_text("0010302"@),
        "0010303"@.len() == 7 && is_hex_text("0010303"@),
        "0010304"@.len() == 7 && is_hex_text("0010304"@),
        "0010305"@.len() == 7 && is_hex_text("0010305"@),
        "0010306"@.len() == 7 && is_hex_text("0010306"@),
        "0010307"@.len() == 7 && is_hex_text("0010307"@),
        "0010308"@.len() == 7 && is_hex_text("0010308"@),
        "0010309"@.len() == 7 && is_hex_text("0010309"@),
        "001030A"@.len() == 7 && is_hex_text("001030A"@),
        "001030B"@.len() == 7 && is_hex_text("001030B"@),
        "001030C"@.len() == 7 && is_hex_text("001030C"@),
        "001030D"@.len() == 7 && is_hex_text("001030D"@),
        "001030E"@.len() == 7 && is_hex_text("001030E"@),
        "001030F"@.len() == 7 && is_hex_text("001030F"@),
        "0010310"@.len() == 7 && is_hex_text("0010310"@),
        "0010311"@.len() == 7 && is_hex_text("0010311"@),
        "0010312"@.len() == 7 && is_hex_text("0010312"@),
        "0010313"@.len() == 7 && is_hex_text("0010313"@),
        "0010314"@.len() == 7 && is_hex_text("0010314"@),
        "0010315"@.len() == 7 && is_hex_text("0010315"@),
        "0010316"@.len() == 7 && is_hex_text("0010316"@),
        "0004E27"@.len() == 7 && is_hex_text("0004E27"@),
        "0004E29"@.len() == 7 && is_hex_text("0004E29"@),
        "0004E2A"@.len() == 7 && is_hex_text("0004E2A"@),
        "0004E2C"@.len() == 7 && is_hex_text("0004E2C"@),
        "0004E2B"@.len() == 7 && is_hex_text("0004E2B"@),
        "0004E28"@.len() == 7 && is_hex_text("0004E28"@),
{
    assert("0000000"@.len() == 7 && is_hex_text("0000000"@)) by {
        reveal_strlit("0000000");
    }
    assert("00101D1"@.len() == 7 && is_hex_text("00101D1"@)) by {
        reveal_strlit("00101D1");
    }
    assert("0010235"@.len() == 7 && is_hex_text("0010235"@)) by {
        reveal_strlit("0010235");
    }
    assert("0010236"@.len() == 7 && is_hex_text("0010236"@)) by {
        reveal_strlit("0010236");
    }
    assert("0010237"@.len() == 7 && is_hex_text("0010237"@)) by {
        reveal_strlit("0010237");
    }
    assert("0010249"@.len() == 7 && is_hex_text("0010249"@)) by {
        reveal_strlit("0010249");
    }
    assert("001024A"@.len() == 7 && is_hex_text("001024A"@)) by {
        reveal_strlit("001024A");
    }
    assert("001024B"@.len() == 7 && is_hex_text("001024B"@)) by {
        reveal_strlit("001024B");
    }
    assert("001025D"@.len() == 7 && is_hex_text("001025D"@)) by {
        reveal_strlit("001025D");
    }
    assert("001025E"@.len() == 7 && is_hex_text("001025E"@)) by {
        reveal_strlit("001025E");
    }
    assert("001025F"@.len() == 7 && is_hex_text("001025F"@)) by {
        reveal_strlit("001025F");
    }
    assert("00101E5"@.len() == 7 && is_hex_text("00101E5"@)) by {
        reveal_strlit("00101E5");
    }
    assert("00101E6"@.len() == 7 && is_hex_text("00101E6"@)) by {
        reveal_strlit("00101E6");
    }
    assert("00101E7"@.len() == 7 && is_hex_text("00101E7"@)) by {
        reveal_strlit("00101E7");
    }
    assert("00101F9"@.len() == 7 && is_hex_text("00101F9"@)) by {
        reveal_strlit("00101F9");
    }
    assert("00101FA"@.len() == 7 && is_hex_text("00101FA"@)) by {
        reveal_strlit("00101FA");
    }
    assert("00101FB"@.len() == 7 && is_hex_text("00101FB"@)) by {
        reveal_strlit("00101FB");
    }
    assert("001020D"@.len() == 7 && is_hex_text("001020D"@)) by {
        reveal_strlit("001020D");
    }
    assert("001020E"@.len() == 7 && is_hex_text("001020E"@)) by {
        reveal_strlit("001020E");
    }
    assert("001020F"@.len() == 7 && is_hex_text("001020F"@)) by {
        reveal_strlit("001020F");
    }
    assert("00005E9"@.len() == 7 && is_hex_text("00005E9"@)) by {
        reveal_strlit("00005E9");
    }
    assert("000061B"@.len() == 7 && is_hex_text("000061B"@)) by {
        reveal_strlit("000061B");
    }
    assert("000064D"@.len() == 7 && is_hex_text("000064D"@)) by {
        reveal_strlit("000064D");
    }
    assert("000067E"@.len() == 7 && is_hex_text("000067E"@)) by {
        reveal_strlit("000067E");
    }
    assert("00006B1"@.len() == 7 && is_hex_text("00006B1"@)) by {
        reveal_strlit("00006B1");
    }
    assert("00006E2"@.len() == 7 && is_hex_text("00006E2"@)) by {
        reveal_strlit("00006E2");
    }
    assert("0000715"@.len() == 7 && is_hex_text("0000715"@)) by {
        reveal_strlit("0000715");
    }
    assert("0000746"@.len() == 7 && is_hex_text("0000746"@)) by {
        reveal_strlit("0000746");
    }
    assert("0010221"@.len() == 7 && is_hex_text("0010221"@)) by {
        reveal_strlit("0010221");
    }
    assert("0010222"@.len() == 7 && is_hex_text("0010222"@)) by {
        reveal_strlit("0010222");
    }
    assert("0010223"@.len() == 7 && is_hex_text("0010223"@)) by {
        reveal_strlit("0010223");
    }
    assert("0010271"@.len() == 7 && is_hex_text("0010271"@)) by {
        reveal_strlit("0010271");
    }
    assert("0010272"@.len() == 7 && is_hex_text("0010272"@)) by {
        reveal_strlit("0010272");
    }
    assert("0010273"@.len() == 7 && is_hex_text("0010273"@)) by {
        reveal_strlit("0010273");
    }
    assert("0010274"@.len() == 7 && is_hex_text("0010274"@)) by {
        reveal_strlit("0010274");
    }
    assert("0010275"@.len() == 7 && is_hex_text("0010275"@)) by {
        reveal_strlit("0010275");
    }
    assert("0010276"@.len() == 7 && is_hex_text("0010276"@)) by {
        reveal_strlit("0010276");
    }
    assert("0010277"@.len() == 7 && is_hex_text("0010277"@)) by {
        reveal_strlit("0010277");
    }
    assert("0010278"@.len() == 7 && is_hex_text("0010278"@)) by {
        reveal_strlit("0010278");
    }
    assert("0010279"@.len() == 7 && is_hex_text("0010279"@)) by {
        reveal_strlit("0010279");
    }
    assert("001027A"@.len() == 7 && is_hex_text("001027A"@)) by {
        reveal_strlit("001027A");
    }
    assert("001027B"@.len() == 7 && is_hex_text("001027B"@)) by {
        reveal_strlit("001027B");
    }
    assert("0010285"@.len() == 7 && is_hex_text("0010285"@)) by {
        reveal_strlit("0010285");
    }
    assert("0010286"@.len() == 7 && is_hex_text("0010286"@)) by {
        reveal_strlit("0010286");
    }
    assert("0010287"@.len() == 7 && is_hex_text("0010287"@)) by {
        reveal_strlit("0010287");
    }
    assert("0010288"@.len() == 7 && is_hex_text("0010288"@)) by {
        reveal_strlit("0010288");
    }
    assert("0010289"@.len() == 7 && is_hex_text("0010289"@)) by {
        reveal_strlit("0010289");
    }
    assert("001028A"@.len() == 7 && is_hex_text("001028A"@)) by {
        reveal_strlit("001028A");
    }
    assert("001028B"@.len() == 7 && is_hex_text("001028B"@)) by {
        reveal_strlit("001028B");
    }
    assert("001028C"@.len() == 7 && is_hex_text("001028C"@)) by {
        reveal_strlit("001028C");
    }
    assert("001028D"@.len() == 7 && is_hex_text("001028D"@)) by {
        reveal_strlit("001028D");
    }
    assert("001028E"@.len() == 7 && is_hex_text("001028E"@)) by {
        reveal_strlit("001028E");
    }
    assert("001028F"@.len() == 7 && is_hex_text("001028F"@)) by {
        reveal_strlit("001028F");
    }
    assert("00102FD"@.len() == 7 && is_hex_text("00102FD"@)) by {
        reveal_strlit("00102FD");
    }
    assert("00102FE"@.len() == 7 && is_hex_text("00102FE"@)) by {
        reveal_strlit("00102FE");
    }
    assert("00102FF"@.len() == 7 && is_hex_text("00102FF"@)) by {
        reveal_strlit("00102FF");
    }
    assert("0010300"@.len() == 7 && is_hex_text("0010300"@)) by {
        reveal_strlit("0010300");
    }
    assert("0010301"@.len() == 7 && is_hex_text("0010301"@)) by {
        reveal_strlit("0010301");
    }
    assert("0010302"@.len() == 7 && is_hex_text("0010302"@)) by {
        reveal_strlit("0010302");
    }
    assert("0010303"@.len() == 7 && is_hex_text("0010303"@)) by {
        reveal_strlit("0010303");
    }
    assert("0010304"@.len() == 7 && is_hex_text("0010304"@)) by {
        reveal_strlit("0010304");
    }
    assert("0010305"@.len() == 7 && is_hex_text("0010305"@)) by {
        reveal_strlit("0010305");
    }
    assert("0010306"@.len() == 7 && is_hex_text("0010306"@)) by {
        reveal_strlit("0010306");
    }
    assert("0010307"@.len() == 7 && is_hex_text("0010307"@)) by {
        reveal_strlit("0010307");
    }
    assert("0010308"@.len() == 7 && is_hex_text("0010308"@)) by {
        reveal_strlit("0010308");
    }
    assert("0010309"@.len() == 7 && is_hex_text("0010309"@)) by {
        reveal_strlit("0010309");
    }
    assert("001030A"@.len() == 7 && is_hex_text("001030A"@)) by {
        reveal_strlit("001030A");
    }
    assert("001030B"@.len() == 7 && is_hex_text("001030B"@)) by {
        reveal_strlit("001030B");
    }
    assert("001030C"@.len() == 7 && is_hex_text("001030C"@)) by {
        reveal_strlit("001030C");
    }
    assert("001030D"@.len() == 7 && is_hex_text("001030D"@)) by {
        reveal_strlit("001030D");
    }
    assert("001030E"@.len() == 7 && is_hex_text("001030E"@)) by {
        reveal_strlit("001030E");
    }
    assert("001030F"@.len() == 7 && is_hex_text("001030F"@)) by {
        reveal_strlit("001030F");
    }
    assert("0010310"@.len() == 7 && is_hex_text("0010310"@)) by {
        reveal_strlit("0010310");
    }
    assert("0010311"@.len() == 7 && is_hex_text("0010311"@)) by {
        reveal_strlit("0010311");
    }
    assert("0010312"@.len() == 7 && is_hex_text("0010312"@)) by {
        reveal_strlit("0010312");
    }
    assert("0010313"@.len() == 7 && is_hex_text("0010313"@)) by {
        reveal_strlit("0010313");
    }
    assert("0010314"@.len() == 7 && is_hex_text("0010314"@)) by {
        reveal_strlit("0010314");
    }
    assert("0010315"@.len() == 7 && is_hex_text("0010315"@)) by {
        reveal_strlit("0010315");
    }
    assert("0010316"@.len() == 7 && is_hex_text("0010316"@)) by {
        reveal_strlit("0010316");
    }
    assert("0004E27"@.len() == 7 && is_hex_text("0004E27"@)) by {
        reveal_strlit("0004E27");
    }
    assert("0004E29"@.len() == 7 && is_hex_text("0004E29"@)) by {
        reveal_strlit("0004E29");
    }
    assert("0004E2A"@.len() == 7 && is_hex_text("0004E2A"@)) by {
        reveal_strlit("0004E2A");
    }
    assert("0004E2C"@.len() == 7 && is_hex_text("0004E2C"@)) by {
        reveal_strlit("0004E2C");
    }
    assert("0004E2B"@.len() == 7 && is_hex_text("0004E2B"@)) by {
        reveal_strlit("0004E2B");
    }
    assert("0004E28"@.len() == 7 && is_hex_text("0004E28"@)) by {
        reveal_strlit("0004E28");
    }
}

/// The key of every icon is three hexadecimal digits, and the id seven.
pub proof fn lemma_icon_texts_are_hex(icon: MacroIcon)
    ensures
        icon_key(icon).len() == 3,
        icon_id(icon).len() == 7,
        is_hex_text(icon_key(icon)),
        is_hex_text(icon_id(icon)),
{
    lemma_keys_are_hex();
    lemma_ids_are_hex();
}

/// The table is one to one: the pair that stands for an icon is found again
/// as that icon.
pub proof fn lemma_icon_round_trip(icon: MacroIcon)
    ensures
        icon_of(icon_key(icon), icon_id(icon)) == Some(icon),
{
    lemma_reveal_keys();
}

/// A pair that stands for an icon is the pair of that icon.
pub proof fn lemma_icon_of_is_exact(key: Seq<char>, id: Seq<char>)
    ensures
        icon_of(key, id) matches Some(icon) ==> key == icon_key(icon) && id == icon_id(icon),
{
}

} // verus!
