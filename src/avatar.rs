//! Avatar addresses, with the platform's default avatar for members who never set one.
use vstd::prelude::*;
use crate::decimal::{digits, push_digits};

verus! {

/// Which of the platform's default avatars a member without an avatar gets: members
/// still carrying a legacy four-digit discriminator cycle through five images by that
/// number, the others through six by the timestamp bits of their identifier.
pub open spec fn default_avatar_index(discriminator: Option<u16>, user_id: u64) -> u64 {
    match discriminator {
        Some(d) => (d % 5) as u64,
        None => (user_id >> 22u64) % 6,
    }
}

/// The address of the default avatar with the given index.
pub open spec fn default_avatar_url(index: u64) -> Seq<char> {
    "https://cdn.discordapp.com/embed/avatars/"@ + digits(index as nat) + ".png"@
}

/// Gets a user's avatar URL. If they don't have one, returns their default one.
pub fn get_avatar_url(avatar_url: Option<String>, discriminator: Option<u16>, user_id: u64) -> (r:
    String)
    ensures
        avatar_url matches Some(url) ==> r@ == url@,
        avatar_url is None ==> r@ == default_avatar_url(
            default_avatar_index(discriminator, user_id),
        ),
{
    match avatar_url {
        Some(url) => url,
        None => {
            let index: u64 = match discriminator {
                Some(d) => (d % 5) as u64,
                None => (user_id >> 22u64) % 6,
            };
            let mut url = "https://cdn.discordapp.com/embed/avatars/".to_owned();
            push_digits(&mut url, index);
            url.append(".png");
            assert(url@ =~= default_avatar_url(index));
            url
        },
    }
}

} // verus!
