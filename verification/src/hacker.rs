//! The badge: what one claimed credential records.

use vstd::prelude::*;

verus! {

/// The display name that every badge carries.
pub const BADGE_NAME: &'static str = "Radix x EBC Hackathon 2024";

/// The description that every badge carries.
pub const BADGE_DESCRIPTION: &'static str =
    "Proof of attendance for participating in the Radix x EBC Hackathon 2024";

/// The image that every badge shows.
pub const BADGE_KEY_IMAGE_URL: &'static str =
    "https://dhnz2uhkq5om47mfpp3sxssguzwjgrr32j2b26erdhkunava4kuq.arweave.net/GdudUOqHXM59hXv3K8pGpmyTRjvSdB14kRnVRoKg4qk";

/// The data of one badge. Name, description and image are the same on every
/// badge; the team name is the claimant's.
#[derive(Clone, Debug, PartialEq, Eq)]
pub struct Hacker {
    pub name: String,
    pub description: String,
    pub team_name: String,
    pub key_image_url: String,
}

/// What a badge says, as text.
pub struct HackerView {
    pub name: Seq<char>,
    pub description: Seq<char>,
    pub team_name: Seq<char>,
    pub key_image_url: Seq<char>,
}

impl View for Hacker {
    type V = HackerView;

    open spec fn view(&self) -> HackerView {
        HackerView {
            name: self.name@,
            description: self.description@,
            team_name: self.team_name@,
            key_image_url: self.key_image_url@,
        }
    }
}

/// The badge of the team called `team_name`.
pub open spec fn badge_of(team_name: Seq<char>) -> HackerView {
    HackerView {
        name: BADGE_NAME@,
        description: BADGE_DESCRIPTION@,
        team_name,
        key_image_url: BADGE_KEY_IMAGE_URL@,
    }
}

impl Hacker {
    /// Fills in a badge for the team called `team_name`.
    pub fn new(team_name: String) -> (badge: Hacker)
        ensures
            badge@ == badge_of(team_name@),
    {
        Hacker {
            name: BADGE_NAME.to_owned(),
            description: BADGE_DESCRIPTION.to_owned(),
            team_name,
            key_image_url: BADGE_KEY_IMAGE_URL.to_owned(),
        }
    }
}

} // verus!
