//! The wizard: grows in level every night and casts one spell a night.

use vstd::prelude::*;
use crate::vec_set::VecSet;
use crate::game::{Game, data, valid_player, alive};
use crate::game::player::PlayerReference;
use crate::game::chat::ChatMessageVariant;
use crate::game::effect::Effect;
use crate::game::visit::Visit;
use crate::game::ability_input::{ControllerID, ControllerParameters, AvailableAbilitySelection};
use super::{Role, Priority};
use super::mortician::is_alibi;
use super::common_role::{selection_visits, convert_controller_selection_to_visits};

verus! {

#[derive(Clone, Copy, Debug, PartialEq, Eq, Structural)]
pub enum WizardAction {
    Meditate,
    Shield,
    Illusion,
    Reveal,
    Shock,
    Pyrolyze,
}

#[derive(Debug)]
pub struct Wizard {
    pub level: u8,
    pub action: WizardAction,
    pub last_used_action: Option<WizardAction>,
    pub tagged_for_obscure: VecSet<PlayerReference>,
    pub shielded: bool,
}

impl Default for Wizard {
    fn default() -> (r: Self)
        ensures
            r.level == 0,
            r.action == WizardAction::Meditate,
            r.last_used_action is None,
            r.tagged_for_obscure@.len() == 0,
            !r.shielded,
    {
        Wizard {
            level: 0,
            action: WizardAction::Meditate,
            last_used_action: None,
            tagged_for_obscure: VecSet::new(),
            shielded: false,
        }
    }
}

pub open spec fn inc(x: u8) -> u8 {
    if x < 255 { (x + 1) as u8 } else { 255 }
}

impl Wizard {
    /// Meditating at the message-stealing step gains a level.
    pub fn spell_meditate(self, priority: Priority) -> (r: Wizard)
        ensures
            priority == Priority::StealMessages ==> r.level == inc(self.level) && r.last_used_action == Some(WizardAction::Meditate),
            priority != Priority::StealMessages ==> r.level == self.level && r.last_used_action == self.last_used_action,
            r.action == self.action && r.shielded == self.shielded && r.tagged_for_obscure@ == self.tagged_for_obscure@,
    {
        if priority == Priority::StealMessages {
            let level = if self.level < 255 { self.level + 1 } else { 255 };
            Wizard { level, last_used_action: Some(WizardAction::Meditate), ..self }
        } else {
            self
        }
    }

    /// Shielding at the heal step shields the wizard.
    pub fn spell_shield(self, priority: Priority) -> (r: Wizard)
        ensures
            priority == Priority::Heal ==> r.shielded && r.last_used_action == Some(WizardAction::Shield),
            priority != Priority::Heal ==> r.shielded == self.shielded && r.last_used_action == self.last_used_action,
            r.level == self.level && r.action == self.action && r.tagged_for_obscure@ == self.tagged_for_obscure@,
    {
        if priority == Priority::Heal {
            Wizard { shielded: true, last_used_action: Some(WizardAction::Shield), ..self }
        } else {
            self
        }
    }

    /// Every message-stealing step raises the wizard's level; then the
    /// chosen spell acts (meditation raising it once more). The other spells
    /// do nothing yet.
    pub fn do_night_action(self, priority: Priority) -> (r: Wizard)
        ensures
            ({
                let level = if priority == Priority::StealMessages { inc(self.level) } else { self.level };
                &&& r.action == self.action
                &&& r.tagged_for_obscure@ == self.tagged_for_obscure@
                &&& self.action == WizardAction::Meditate && priority == Priority::StealMessages ==> r.level == inc(level)
                    && r.last_used_action == Some(WizardAction::Meditate) && r.shielded == self.shielded
                &&& self.action == WizardAction::Shield && priority == Priority::Heal ==> r.level == level && r.shielded
                    && r.last_used_action == Some(WizardAction::Shield)
                &&& !(self.action == WizardAction::Meditate && priority == Priority::StealMessages) && !(self.action
                    == WizardAction::Shield && priority == Priority::Heal) ==> r.level == level && r.shielded == self.shielded
                    && r.last_used_action == self.last_used_action
            }),
    {
        let mut w = self;
        if priority == Priority::StealMessages {
            w.level = if w.level < 255 { w.level + 1 } else { 255 };
        }
        match w.action {
            WizardAction::Meditate => w.spell_meditate(priority),
            WizardAction::Shield => w.spell_shield(priority),
            _ => w,
        }
    }

    /// When a grave is dug for a player the wizard marked (or for itself), a
    /// living wizard (or one whose own grave it is) learns their role and
    /// will, and the grave is obscured.
    pub fn on_grave_added(&self, game: &Game, actor_ref: PlayerReference, player: PlayerReference) -> (r: Vec<Effect>)
        requires
            valid_player(*game, actor_ref),
            valid_player(*game, player),
        ensures
            ({
                let shown = (alive(*game, actor_ref) || player == actor_ref) && (self.tagged_for_obscure@.contains(player)
                    || player == actor_ref);
                &&& shown ==> r@.len() == 2 && is_alibi(*game, actor_ref, player, r@[0]) && r@[1] == (Effect::ObscureGrave {
                    player,
                })
                &&& !shown ==> r@.len() == 0
            }),
    {
        let mut out: Vec<Effect> = Vec::new();
        if !crate::game::player_alive(game, actor_ref) && player != actor_ref {
            return out;
        }
        if !self.tagged_for_obscure.contains(&player) && player != actor_ref {
            return out;
        }
        let d = &game.players[player.index as usize];
        out.push(
            Effect::PrivateMessage {
                to: actor_ref,
                message: ChatMessageVariant::PlayerRoleAndAlibi { player, role: d.role, will: d.will.clone() },
            },
        );
        out.push(Effect::ObscureGrave { player });
        out
    }

    /// Another player at night, outsiders only.
    pub fn controller_parameters_map(&self, game: &Game, actor_ref: PlayerReference) -> (r: ControllerParameters)
        ensures
            r.id == ControllerID::role(actor_ref, Role::Wizard, 0),
            r.available == (AvailableAbilitySelection::SinglePlayerTypical {
                can_select_self: false,
                can_select_insiders: false,
            }),
            r.night_typical,
            !r.grayed_out,
    {
        ControllerParameters {
            id: ControllerID::role(actor_ref, Role::Wizard, 0),
            available: AvailableAbilitySelection::SinglePlayerTypical {
                can_select_self: false,
                can_select_insiders: false,
            },
            grayed_out: false,
            night_typical: true,
            reset_on_phase_start: None,
            dont_save: false,
            default_selection: None,
            allowed_players: vec![actor_ref],
        }
    }

    pub fn convert_selection_to_visits(&self, game: &Game, actor_ref: PlayerReference) -> (r: Vec<Visit>)
        ensures
            r@ == selection_visits(*game, actor_ref, Role::Wizard, 0, false),
    {
        convert_controller_selection_to_visits(game, actor_ref, Role::Wizard, 0, false)
    }
}

} // verus!
