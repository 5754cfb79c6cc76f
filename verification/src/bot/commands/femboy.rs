use super::CreateCommand;
use super::DiscordCommandDefinition;
use super::DiscordCommandResponse;
use super::is_followup_message;
use crate::utils::random_index_below;
use vstd::prelude::*;

verus! {

/// The image the `femboy` command links for each drawn index.
pub open spec fn femboy_image(i: int) -> Seq<char> {
    if i == 0 {
        "https://i.pinimg.com/originals/10/89/22/1089220beba27d80631e65408f045df8.gif"@
    } else if i == 1 {
        "https://i.pinimg.com/originals/4b/48/5b/4b485b307c58b4a77a19f755d1620388.gif"@
    } else if i == 2 {
        "https://i.pinimg.com/originals/c8/38/5c/c8385c6980bcac8c8a370f815d48ece0.gif"@
    } else {
        "https://i.pinimg.com/736x/cf/2d/45/cf2d456b0f88017dbbbc6f8c9d9f7d17.jpg"@
    }
}

/// The fixed list of images the command draws from.
pub fn femboy_images() -> (r: Vec<String>)
    ensures
        r@.len() == 4,
        forall|i: int| 0 <= i < 4 ==> (#[trigger] r@[i])@ == femboy_image(i),
{
    let mut v: Vec<String> = Vec::new();
    v.push("https://i.pinimg.com/originals/10/89/22/1089220beba27d80631e65408f045df8.gif".to_owned());
    v.push("https://i.pinimg.com/originals/4b/48/5b/4b485b307c58b4a77a19f755d1620388.gif".to_owned());
    v.push("https://i.pinimg.com/originals/c8/38/5c/c8385c6980bcac8c8a370f815d48ece0.gif".to_owned());
    v.push("https://i.pinimg.com/736x/cf/2d/45/cf2d456b0f88017dbbbc6f8c9d9f7d17.jpg".to_owned());
    v
}

/// The `femboy` command: defers, then follows up with one of a fixed list
/// of images, drawn at random.
#[derive(Debug)]
pub struct FemboyCommand;

impl FemboyCommand {
    pub fn definition(&self) -> (r: DiscordCommandDefinition)
        ensures
            r.name@ == "femboy"@,
            r.is_global,
            r.is_deferred,
            !r.is_ephemeral,
    {
        DiscordCommandDefinition::new_global("femboy", true, false)
    }

    pub fn registration(&self) -> (r: CreateCommand)
        ensures
            r.name@ == "femboy"@,
            r.name_localizations@.len() == 1,
            r.name_localizations@[0].0@ == "ru"@,
            r.description@ == ">w<"@,
            r.options@.len() == 0,
            r.default_member_permissions is None,
    {
        CreateCommand::new("femboy").name_localized("ru", "фембой").description(">w<")
    }

    pub fn handler(&self) -> (r: DiscordCommandResponse)
        ensures
            exists|i: int| 0 <= i < 4 && is_followup_message(r, femboy_image(i), false),
    {
        let images = femboy_images();
        let idx = random_index_below(4);
        DiscordCommandResponse::followup_response(images[idx].as_str(), false)
    }
}

} // verus!
