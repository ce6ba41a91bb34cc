//! The names of redeemer tags.
use vstd::prelude::*;

use crate::kernel::primitives::RedeemerTag;

verus! {

/// The name of a redeemer tag.
pub open spec fn tag_name(tag: RedeemerTag) -> Seq<char> {
    match tag {
        RedeemerTag::Spend => seq!['S', 'p', 'e', 'n', 'd'],
        RedeemerTag::Mint => seq!['M', 'i', 'n', 't'],
        RedeemerTag::Cert => seq!['C', 'e', 'r', 't'],
        RedeemerTag::Reward => seq!['R', 'e', 'w', 'a', 'r', 'd'],
        RedeemerTag::Vote => seq!['V', 'o', 't', 'e'],
        RedeemerTag::Propose => seq!['P', 'r', 'o', 'p', 'o', 's', 'e'],
    }
}

/// The name of the tag of a redeemer's purpose.
pub fn redeemer_tag_to_string(purpose: &RedeemerTag) -> (s: String)
    ensures
        s@ == tag_name(*purpose),
{
    match purpose {
        RedeemerTag::Spend => {
            proof {
                reveal_strlit("Spend");
            }
            "Spend".to_owned()
        },
        RedeemerTag::Mint => {
            proof {
                reveal_strlit("Mint");
            }
            "Mint".to_owned()
        },
        RedeemerTag::Cert => {
            proof {
                reveal_strlit("Cert");
            }
            "Cert".to_owned()
        },
        RedeemerTag::Reward => {
            proof {
                reveal_strlit("Reward");
            }
            "Reward".to_owned()
        },
        RedeemerTag::Vote => {
            proof {
                reveal_strlit("Vote");
            }
            "Vote".to_owned()
        },
        RedeemerTag::Propose => {
            proof {
                reveal_strlit("Propose");
            }
            "Propose".to_owned()
        },
    }
}

} // verus!
