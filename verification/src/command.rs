//! The pure part of one lint invocation: turning captured clippy output into
//! the pet action the front end should play. Spawning the tool, capturing its
//! diagnostic stream and emitting the event are I/O and live outside this
//! library.

use vstd::prelude::*;
use crate::response::{classify_spec, CodeQuality, Configuration};

verus! {

/// Payload of one `pet-action` notification: the animation the front end
/// should play, and an optional message to show to the user.
pub struct PetAction {
    pub animation: String,
    pub message: Option<String>,
}

/// The animation played for each quality tier.
pub open spec fn animation_spec(quality: CodeQuality) -> Seq<char> {
    match quality {
        CodeQuality::Perfect => "clap"@,
        CodeQuality::Mediocre => "disappointed"@,
        CodeQuality::Bad => "angry"@,
    }
}

/// The fixed, total tier-to-animation table: Perfect plays "clap", Mediocre
/// plays "disappointed", Bad plays "angry".
pub fn animation_for(quality: CodeQuality) -> (name: &'static str)
    ensures
        name@ == animation_spec(quality),
{
    match quality {
        CodeQuality::Perfect => "clap",
        CodeQuality::Mediocre => "disappointed",
        CodeQuality::Bad => "angry",
    }
}

/// Law: the tier-to-animation table is exhaustive and exact — each tier has
/// its one animation, and each animation names its one tier.
pub proof fn lemma_animation_exact(quality: CodeQuality)
    ensures
        quality == CodeQuality::Perfect <==> animation_spec(quality) == "clap"@,
        quality == CodeQuality::Mediocre <==> animation_spec(quality) == "disappointed"@,
        quality == CodeQuality::Bad <==> animation_spec(quality) == "angry"@,
{
    reveal_strlit("clap");
    reveal_strlit("disappointed");
    reveal_strlit("angry");
    assert("clap"@.len() == 4);
    assert("disappointed"@.len() == 12);
    assert("angry"@.len() == 5);
}

/// Classify captured clippy output and package the reaction to it: the tier,
/// and a pet action carrying that tier's animation and a randomly selected
/// message from the bank, absent when the bank has none for the tier.
pub fn plan_pet_action(config: &Configuration, output: &str) -> (r: (CodeQuality, PetAction))
    ensures
        r.0 == classify_spec(output@),
        r.1.animation@ == animation_spec(classify_spec(output@)),
        r.1.message is Some <==> config.response.has_message(classify_spec(output@)),
        r.1.message matches Some(m) ==> config.response.contains_message(
            classify_spec(output@),
            m@,
        ),
{
    let (quality, message) = config.respond_to_clippy_output(output);
    let animation = animation_for(quality).to_owned();
    (quality, PetAction { animation, message })
}

} // verus!
