//! Audio routing rules: which sound each named event plays, how loud, with
//! which pitch variation, and which ambience bed belongs to each biome.
//! Gameplay emits [`AudioCue`]s; playback itself happens outside the
//! library.
use vstd::prelude::*;

use crate::rng::{range_spec, unit_spec, xorshift_spec, GameRng};
use crate::states::Biome;

verus! {

/// Named sound events. Gameplay writes these; the audio side listens.
#[derive(Clone, Copy, PartialEq, Eq, Structural, Debug)]
pub enum AudioCue {
    CollectFish,
    CollectShrimp,
    Jump,
    CannonLaunch,
}

/// Every sound the game can play.
#[derive(Clone, Copy, PartialEq, Eq, Structural, Debug)]
pub enum Sound {
    CollectFish,
    CollectShrimp,
    Jump,
    Hit,
    Cannon,
    Splash,
    GameOver,
    AmbienceIce,
    AmbienceWater,
    AmbienceSky,
}

/// Global mute toggle, flipped by the HUD sound button.
#[derive(Clone, Copy, PartialEq, Eq, Structural, Debug)]
pub struct Muted(pub bool);

impl Default for Muted {
    fn default() -> (r: Muted)
        ensures
            !r.0,
    {
        Muted(false)
    }
}

/// The sound a cue plays.
pub open spec fn cue_sound_spec(cue: AudioCue) -> Sound {
    match cue {
        AudioCue::CollectFish => Sound::CollectFish,
        AudioCue::CollectShrimp => Sound::CollectShrimp,
        AudioCue::Jump => Sound::Jump,
        AudioCue::CannonLaunch => Sound::Cannon,
    }
}

/// Playback volume of each sound, in per-mille of full volume.
pub open spec fn volume_spec(sound: Sound) -> u32 {
    match sound {
        Sound::CollectFish => 500,
        Sound::CollectShrimp => 450,
        Sound::Jump => 400,
        Sound::Hit => 800,
        Sound::Cannon => 900,
        Sound::Splash => 600,
        Sound::GameOver => 700,
        Sound::AmbienceIce => 350,
        Sound::AmbienceWater => 400,
        Sound::AmbienceSky => 300,
    }
}

/// The ambience bed of each biome.
pub open spec fn ambience_spec(biome: Biome) -> Sound {
    match biome {
        Biome::Ice => Sound::AmbienceIce,
        Biome::Water => Sound::AmbienceWater,
        Biome::Sky => Sound::AmbienceSky,
    }
}

/// The sound a cue plays.
pub fn cue_sound(cue: AudioCue) -> (r: Sound)
    ensures
        r == cue_sound_spec(cue),
{
    match cue {
        AudioCue::CollectFish => Sound::CollectFish,
        AudioCue::CollectShrimp => Sound::CollectShrimp,
        AudioCue::Jump => Sound::Jump,
        AudioCue::CannonLaunch => Sound::Cannon,
    }
}

/// Playback volume of a sound, in per-mille.
pub fn volume(sound: Sound) -> (r: u32)
    ensures
        r == volume_spec(sound),
{
    match sound {
        Sound::CollectFish => 500,
        Sound::CollectShrimp => 450,
        Sound::Jump => 400,
        Sound::Hit => 800,
        Sound::Cannon => 900,
        Sound::Splash => 600,
        Sound::GameOver => 700,
        Sound::AmbienceIce => 350,
        Sound::AmbienceWater => 400,
        Sound::AmbienceSky => 300,
    }
}

/// The ambience bed of a biome.
pub fn ambience_for(biome: Biome) -> (r: Sound)
    ensures
        r == ambience_spec(biome),
{
    match biome {
        Biome::Ice => Sound::AmbienceIce,
        Biome::Water => Sound::AmbienceWater,
        Biome::Sky => Sound::AmbienceSky,
    }
}

/// The "randomized container" treatment: each one-shot plays at a speed
/// drawn uniformly from 940 to 1060 per-mille (pitch ±6%).
pub fn sfx_speed_permille(rng: &mut GameRng) -> (r: i64)
    ensures
        r == range_spec(940, 1060, unit_spec(xorshift_spec(old(rng)@))),
        940 <= r < 1060,
        final(rng)@ == xorshift_spec(old(rng)@),
{
    rng.range(940, 1060)
}

/// What a change of the mute toggle asks of playback.
#[derive(Clone, Copy, PartialEq, Eq, Structural, Debug)]
pub enum MuteAction {
    /// Nothing to do.
    Nothing,
    /// Silence every live sound at once.
    SilenceAll,
    /// Restart the ambience bed of the current biome at its volume.
    RestartAmbience,
}

/// React to the mute toggle: nothing unless it changed after being set up;
/// muting silences everything; unmuting restarts the ambience bed (one-shots
/// are too short to bother resurrecting).
pub fn mute_action(changed: bool, just_added: bool, muted: Muted) -> (r: MuteAction)
    ensures
        (!changed || just_added) ==> r == MuteAction::Nothing,
        (changed && !just_added && muted.0) ==> r == MuteAction::SilenceAll,
        (changed && !just_added && !muted.0) ==> r == MuteAction::RestartAmbience,
{
    if !changed || just_added {
        MuteAction::Nothing
    } else if muted.0 {
        MuteAction::SilenceAll
    } else {
        MuteAction::RestartAmbience
    }
}

/// Flip the mute toggle.
pub fn toggle_mute(muted: &mut Muted)
    ensures
        final(muted).0 == !old(muted).0,
{
    muted.0 = !muted.0;
}

/// One-shots only sound while unmuted; an ambience bed is started for the
/// biome unless muted.
pub fn should_play(muted: Muted) -> (r: bool)
    ensures
        r == !muted.0,
{
    !muted.0
}

} // verus!
