use vstd::prelude::*;

verus! {

/// What the tutorial image needs this frame.
#[derive(Debug, PartialEq, Eq)]
pub enum TutorialAction<E> {
    /// Show a new tutorial image (and report it with `tutorial_created`).
    Create,
    /// Fade out this tutorial image.
    FadeOut(E),
    /// Leave it as it is.
    Nothing,
}

/// What the "your score" display needs this frame.
#[derive(Debug, PartialEq, Eq)]
pub enum ScoreAction<E> {
    /// Fade out the score number and its label.
    Hide(E, E),
    /// Show this score with its label (and report them with `score_display_created`).
    Show(u128),
    /// Leave it as it is.
    Nothing,
}

/// Shows the tutorial until our player first scores, then shows the last
/// score reached whenever our player is back on the ground with zero.
/// `E` is the handle of a displayed entity.
pub struct TutorialAndScoreSystem<E> {
    player_scored_first: bool,
    tutorial: Option<E>,
    last_non_zero_score: u128,
    score_display_ent: Option<E>,
    score_display_label: Option<E>,
}

impl<E> TutorialAndScoreSystem<E> {
    /// The state keeps a score display and its label together, and has a
    /// non-zero last score exactly when the player has scored.
    #[verifier::type_invariant]
    spec fn wf(&self) -> bool {
        &&& (self.score_display_ent is Some <==> self.score_display_label is Some)
        &&& (self.player_scored_first <==> self.last_non_zero_score > 0)
        &&& self.score_display_ent is Some ==> self.player_scored_first
    }

}

impl<E: Copy> TutorialAndScoreSystem<E> {
    pub closed spec fn scored(&self) -> bool {
        self.player_scored_first
    }

    pub closed spec fn last_score(&self) -> u128 {
        self.last_non_zero_score
    }

    pub closed spec fn tutorial_shown(&self) -> Option<E> {
        self.tutorial
    }

    pub closed spec fn score_shown(&self) -> Option<(E, E)> {
        match (self.score_display_ent, self.score_display_label) {
            (Some(d), Some(l)) => Some((d, l)),
            _ => None,
        }
    }

    /// Nothing scored, nothing shown.
    pub fn new() -> (s: Self)
        ensures
            !s.scored(),
            s.last_score() == 0,
            s.tutorial_shown() is None,
            s.score_shown() is None,
    {
        TutorialAndScoreSystem {
            player_scored_first: false,
            tutorial: None,
            last_non_zero_score: 0,
            score_display_ent: None,
            score_display_label: None,
        }
    }

    /// Whether our player has scored since the game began.
    pub fn has_scored(&self) -> (b: bool)
        ensures
            b == self.scored(),
    {
        self.player_scored_first
    }

    /// The tutorial image shown, if any.
    pub fn tutorial(&self) -> (t: Option<E>)
        ensures
            t == self.tutorial_shown(),
    {
        self.tutorial
    }

    /// The score number shown, if any.
    pub fn score_display(&self) -> (d: Option<E>)
        ensures
            d == (match self.score_shown() {
                Some(p) => Some(p.0),
                None => None,
            }),
    {
        proof {
            use_type_invariant(self);
        }
        self.score_display_ent
    }

    /// The tutorial part of a frame: before the first score, make sure a
    /// tutorial image is alive; after it, fade the image out once.
    /// `tutorial_alive` tells whether the tutorial image recorded (if any)
    /// still exists.
    pub fn tutorial_step(&mut self, tutorial_alive: bool) -> (action: TutorialAction<E>)
        ensures
            final(self).scored() == old(self).scored(),
            final(self).last_score() == old(self).last_score(),
            final(self).score_shown() == old(self).score_shown(),
            !old(self).scored() && (old(self).tutorial_shown() is None || !tutorial_alive) ==> action
                == TutorialAction::<E>::Create && final(self).tutorial_shown() == old(self).tutorial_shown(),
            !old(self).scored() && old(self).tutorial_shown() is Some && tutorial_alive ==> action
                == TutorialAction::<E>::Nothing && final(self).tutorial_shown() == old(self).tutorial_shown(),
            old(self).scored() ==> final(self).tutorial_shown() is None,
            old(self).scored() ==> (match old(self).tutorial_shown() {
                Some(t) => action == TutorialAction::FadeOut(t),
                None => action == TutorialAction::<E>::Nothing,
            }),
    {
        proof {
            use_type_invariant(&*self);
        }
        if !self.player_scored_first && (self.tutorial.is_none() || !tutorial_alive) {
            TutorialAction::Create
        } else if self.player_scored_first && self.tutorial.is_some() {
            let t = self.tutorial.unwrap();
            self.tutorial = None;
            TutorialAction::FadeOut(t)
        } else {
            TutorialAction::Nothing
        }
    }

    /// Records the tutorial image just created.
    pub fn tutorial_created(&mut self, tutorial: E)
        ensures
            final(self).tutorial_shown() == Some(tutorial),
            final(self).scored() == old(self).scored(),
            final(self).last_score() == old(self).last_score(),
            final(self).score_shown() == old(self).score_shown(),
    {
        proof {
            use_type_invariant(&*self);
        }
        self.tutorial = Some(tutorial);
    }

    /// The score part of a frame for our player with `score`: a non-zero
    /// score is remembered and hides the score display; a zero score after
    /// the first one shows the last score reached, unless it is shown and
    /// alive (`display_alive`).
    pub fn score_step(&mut self, score: u128, display_alive: bool) -> (action: ScoreAction<E>)
        ensures
            final(self).tutorial_shown() == old(self).tutorial_shown(),
            score > 0 ==> final(self).scored() && final(self).last_score() == score
                && final(self).score_shown() is None,
            score > 0 ==> (match old(self).score_shown() {
                Some(p) => action == ScoreAction::Hide(p.0, p.1),
                None => action == ScoreAction::<E>::Nothing,
            }),
            score == 0 ==> final(self).scored() == old(self).scored() && final(self).last_score()
                == old(self).last_score() && final(self).score_shown() == old(self).score_shown(),
            score == 0 && old(self).scored() && (old(self).score_shown() is None || !display_alive)
                ==> action == ScoreAction::<E>::Show(old(self).last_score()),
            action matches ScoreAction::Show(v) ==> v > 0,
            score == 0 && !(old(self).scored() && (old(self).score_shown() is None || !display_alive))
                ==> action == ScoreAction::<E>::Nothing,
    {
        proof {
            use_type_invariant(&*self);
        }
        if score > 0 {
            let shown = self.score_display_ent;
            let label = self.score_display_label;
            *self = TutorialAndScoreSystem {
                player_scored_first: true,
                tutorial: self.tutorial,
                last_non_zero_score: score,
                score_display_ent: None,
                score_display_label: None,
            };
            match (shown, label) {
                (Some(d), Some(l)) => ScoreAction::Hide(d, l),
                _ => ScoreAction::Nothing,
            }
        } else if self.player_scored_first && (self.score_display_ent.is_none() || !display_alive) {
            ScoreAction::Show(self.last_non_zero_score)
        } else {
            ScoreAction::Nothing
        }
    }

    /// Records the score display and its label just created.
    pub fn score_display_created(&mut self, display: E, label: E)
        requires
            old(self).scored(),
        ensures
            final(self).score_shown() == Some((display, label)),
            final(self).scored() == old(self).scored(),
            final(self).last_score() == old(self).last_score(),
            final(self).tutorial_shown() == old(self).tutorial_shown(),
    {
        proof {
            use_type_invariant(&*self);
        }
        *self = TutorialAndScoreSystem {
            player_scored_first: self.player_scored_first,
            tutorial: self.tutorial,
            last_non_zero_score: self.last_non_zero_score,
            score_display_ent: Some(display),
            score_display_label: Some(label),
        };
    }
}

} // verus!
