//! The command registry: the fixed catalog mapping command names to the
//! numeric key codes the television understands.
//!
//! The catalog keys are upper-case; [`lookup`] matches them exactly, and
//! [`lookup_ci`] upper-cases its argument first so that callers may pass any
//! capitalisation.

use vstd::prelude::*;
use vstd::string::StrSliceExecFns;

verus! {

/// The catalog: the code a command name stands for, or `None` for a name
/// outside the catalog.  Names match case-sensitively.
pub open spec fn command_code(s: Seq<char>) -> Option<u32> {
    if s == "POWER"@ {
        Some(1u32)
    } else if s == "NUM_0"@ {
        Some(2u32)
    } else if s == "NUM_1"@ {
        Some(3u32)
    } else if s == "NUM_2"@ {
        Some(4u32)
    } else if s == "NUM_3"@ {
        Some(5u32)
    } else if s == "NUM_4"@ {
        Some(6u32)
    } else if s == "NUM_5"@ {
        Some(7u32)
    } else if s == "NUM_6"@ {
        Some(8u32)
    } else if s == "NUM_7"@ {
        Some(9u32)
    } else if s == "NUM_8"@ {
        Some(10u32)
    } else if s == "NUM_9"@ {
        Some(11u32)
    } else if s == "UP"@ {
        Some(12u32)
    } else if s == "DOWN"@ {
        Some(13u32)
    } else if s == "LEFT"@ {
        Some(14u32)
    } else if s == "RIGHT"@ {
        Some(15u32)
    } else if s == "OK"@ {
        Some(20u32)
    } else if s == "HOME"@ {
        Some(21u32)
    } else if s == "MENU"@ {
        Some(22u32)
    } else if s == "BACK"@ {
        Some(23u32)
    } else if s == "VOLUME_UP"@ {
        Some(24u32)
    } else if s == "VOLUME_DOWN"@ {
        Some(25u32)
    } else if s == "MUTE"@ {
        Some(26u32)
    } else if s == "CHANNEL_UP"@ {
        Some(27u32)
    } else if s == "CHANNEL_DOWN"@ {
        Some(28u32)
    } else if s == "BLUE"@ {
        Some(29u32)
    } else if s == "GREEN"@ {
        Some(30u32)
    } else if s == "RED"@ {
        Some(31u32)
    } else if s == "YELLOW"@ {
        Some(32u32)
    } else if s == "PLAY"@ {
        Some(33u32)
    } else if s == "PAUSE"@ {
        Some(34u32)
    } else if s == "STOP"@ {
        Some(35u32)
    } else if s == "FF"@ {
        Some(36u32)
    } else if s == "REW"@ {
        Some(37u32)
    } else if s == "SKIP_FF"@ {
        Some(38u32)
    } else if s == "SKIP_REW"@ {
        Some(39u32)
    } else if s == "REC"@ {
        Some(40u32)
    } else if s == "REC_LIST"@ {
        Some(41u32)
    } else if s == "LIVE"@ {
        Some(43u32)
    } else if s == "EPG"@ {
        Some(44u32)
    } else if s == "INFO"@ {
        Some(45u32)
    } else if s == "ASPECT"@ {
        Some(46u32)
    } else if s == "EXT"@ {
        Some(47u32)
    } else if s == "PIP"@ {
        Some(48u32)
    } else if s == "SUBTITLE"@ {
        Some(49u32)
    } else if s == "PROGRAM_LIST"@ {
        Some(50u32)
    } else if s == "TEXT"@ {
        Some(51u32)
    } else if s == "MARK"@ {
        Some(52u32)
    } else if s == "3D"@ {
        Some(400u32)
    } else if s == "3D_LR"@ {
        Some(401u32)
    } else if s == "DASH"@ {
        Some(402u32)
    } else if s == "PREV"@ {
        Some(403u32)
    } else if s == "FAV"@ {
        Some(404u32)
    } else if s == "QUICK_MENU"@ {
        Some(405u32)
    } else if s == "TEXT_OPTION"@ {
        Some(406u32)
    } else if s == "AUDIO_DESC"@ {
        Some(407u32)
    } else if s == "NETCAST"@ {
        Some(408u32)
    } else if s == "ENERGY_SAVE"@ {
        Some(409u32)
    } else if s == "AV"@ {
        Some(410u32)
    } else if s == "SIMPLINK"@ {
        Some(411u32)
    } else if s == "EXIT"@ {
        Some(412u32)
    } else if s == "RESERVED"@ {
        Some(413u32)
    } else if s == "PIP_CHANNEL_UP"@ {
        Some(414u32)
    } else if s == "PIP_CHANNEL_DOWN"@ {
        Some(415u32)
    } else if s == "PIP_SWITCH"@ {
        Some(416u32)
    } else if s == "APPS"@ {
        Some(417u32)
    } else {
        None
    }
}

/// Character-for-character string equality.
pub fn str_eq(a: &str, b: &str) -> (r: bool)
    ensures
        r == (a@ == b@),
{
    let an = a.unicode_len();
    let bn = b.unicode_len();
    if an != bn {
        proof {
            assert(a@ != b@) by {
                if a@ == b@ {
                    assert(a@.len() == b@.len());
                }
            }
        }
        return false;
    }
    let mut i: usize = 0;
    while i < an
        invariant
            an == a@.len(),
            an == b@.len(),
            0 <= i <= an,
            forall|j: int| 0 <= j < i ==> #[trigger] a@[j] == b@[j],
        decreases an - i,
    {
        let ca = a.get_char(i);
        let cb = b.get_char(i);
        if ca != cb {
            proof {
                assert(a@ != b@) by {
                    if a@ == b@ {
                        assert(a@[i as int] == b@[i as int]);
                    }
                }
            }
            return false;
        }
        i = i + 1;
    }
    proof {
        assert(a@ =~= b@);
    }
    true
}

/// Looks a command name up in the catalog, matching it exactly against the
/// upper-case catalog keys.
pub fn lookup(name: &str) -> (r: Option<u32>)
    ensures
        r == command_code(name@),
{
    if str_eq(name, "POWER") {
        return Some(1);
    }
    if str_eq(name, "NUM_0") {
        return Some(2);
    }
    if str_eq(name, "NUM_1") {
        return Some(3);
    }
    if str_eq(name, "NUM_2") {
        return Some(4);
    }
    if str_eq(name, "NUM_3") {
        return Some(5);
    }
    if str_eq(name, "NUM_4") {
        return Some(6);
    }
    if str_eq(name, "NUM_5") {
        return Some(7);
    }
    if str_eq(name, "NUM_6") {
        return Some(8);
    }
    if str_eq(name, "NUM_7") {
        return Some(9);
    }
    if str_eq(name, "NUM_8") {
        return Some(10);
    }
    if str_eq(name, "NUM_9") {
        return Some(11);
    }
    if str_eq(name, "UP") {
        return Some(12);
    }
    if str_eq(name, "DOWN") {
        return Some(13);
    }
    if str_eq(name, "LEFT") {
        return Some(14);
    }
    if str_eq(name, "RIGHT") {
        return Some(15);
    }
    if str_eq(name, "OK") {
        return Some(20);
    }
    if str_eq(name, "HOME") {
        return Some(21);
    }
    if str_eq(name, "MENU") {
        return Some(22);
    }
    if str_eq(name, "BACK") {
        return Some(23);
    }
    if str_eq(name, "VOLUME_UP") {
        return Some(24);
    }
    if str_eq(name, "VOLUME_DOWN") {
        return Some(25);
    }
    if str_eq(name, "MUTE") {
        return Some(26);
    }
    if str_eq(name, "CHANNEL_UP") {
        return Some(27);
    }
    if str_eq(name, "CHANNEL_DOWN") {
        return Some(28);
    }
    if str_eq(name, "BLUE") {
        return Some(29);
    }
    if str_eq(name, "GREEN") {
        return Some(30);
    }
    if str_eq(name, "RED") {
        return Some(31);
    }
    if str_eq(name, "YELLOW") {
        return Some(32);
    }
    if str_eq(name, "PLAY") {
        return Some(33);
    }
    if str_eq(name, "PAUSE") {
        return Some(34);
    }
    if str_eq(name, "STOP") {
        return Some(35);
    }
    if str_eq(name, "FF") {
        return Some(36);
    }
    if str_eq(name, "REW") {
        return Some(37);
    }
    if str_eq(name, "SKIP_FF") {
        return Some(38);
    }
    if str_eq(name, "SKIP_REW") {
        return Some(39);
    }
    if str_eq(name, "REC") {
        return Some(40);
    }
    if str_eq(name, "REC_LIST") {
        return Some(41);
    }
    if str_eq(name, "LIVE") {
        return Some(43);
    }
    if str_eq(name, "EPG") {
        return Some(44);
    }
    if str_eq(name, "INFO") {
        return Some(45);
    }
    if str_eq(name, "ASPECT") {
        return Some(46);
    }
    if str_eq(name, "EXT") {
        return Some(47);
    }
    if str_eq(name, "PIP") {
        return Some(48);
    }
    if str_eq(name, "SUBTITLE") {
        return Some(49);
    }
    if str_eq(name, "PROGRAM_LIST") {
        return Some(50);
    }
    if str_eq(name, "TEXT") {
        return Some(51);
    }
    if str_eq(name, "MARK") {
        return Some(52);
    }
    if str_eq(name, "3D") {
        return Some(400);
    }
    if str_eq(name, "3D_LR") {
        return Some(401);
    }
    if str_eq(name, "DASH") {
        return Some(402);
    }
    if str_eq(name, "PREV") {
        return Some(403);
    }
    if str_eq(name, "FAV") {
        return Some(404);
    }
    if str_eq(name, "QUICK_MENU") {
        return Some(405);
    }
    if str_eq(name, "TEXT_OPTION") {
        return Some(406);
    }
    if str_eq(name, "AUDIO_DESC") {
        return Some(407);
    }
    if str_eq(name, "NETCAST") {
        return Some(408);
    }
    if str_eq(name, "ENERGY_SAVE") {
        return Some(409);
    }
    if str_eq(name, "AV") {
        return Some(410);
    }
    if str_eq(name, "SIMPLINK") {
        return Some(411);
    }
    if str_eq(name, "EXIT") {
        return Some(412);
    }
    if str_eq(name, "RESERVED") {
        return Some(413);
    }
    if str_eq(name, "PIP_CHANNEL_UP") {
        return Some(414);
    }
    if str_eq(name, "PIP_CHANNEL_DOWN") {
        return Some(415);
    }
    if str_eq(name, "PIP_SWITCH") {
        return Some(416);
    }
    if str_eq(name, "APPS") {
        return Some(417);
    }
    None
}

/// The upper-case form of a character sequence, as Unicode case mapping
/// defines it.
pub uninterp spec fn upper_of(s: Seq<char>) -> Seq<char>;

/// Relies on str::to_uppercase: the result depends on the characters alone.
#[verifier::external_body]
fn to_upper(s: &str) -> (r: String)
    ensures
        r@ == upper_of(s@),
{
    s.to_uppercase()
}

/// Looks a command name up case-insensitively: the name is upper-cased and
/// then matched against the catalog.
pub fn lookup_ci(name: &str) -> (r: Option<u32>)
    ensures
        r == command_code(upper_of(name@)),
{
    let up = to_upper(name);
    lookup(up.as_str())
}

} // verus!
