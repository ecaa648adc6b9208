//! The cyclic focus of the form: which field receives the next key press.

use vstd::prelude::*;

verus! {

/// The field of the form that has the focus.
///
/// The fields stand in a fixed cycle, in the order in which the variants are
/// written; after the last comes the first again.
#[derive(Clone, Copy, Debug, PartialEq, Eq, Structural)]
pub enum Highlighted {
    ElectricityRate,
    InitialCost,
    Wattage,
    Name,
    ListName,
}

/// The number of fields in the focus cycle.
pub const FIELD_COUNT: usize = 5;

impl Highlighted {
    /// Position of the field in the cycle, counted from zero.
    pub open spec fn position(self) -> int {
        match self {
            Highlighted::ElectricityRate => 0,
            Highlighted::InitialCost => 1,
            Highlighted::Wattage => 2,
            Highlighted::Name => 3,
            Highlighted::ListName => 4,
        }
    }

    /// The field at a position of the cycle; positions are taken modulo the
    /// number of fields.
    pub open spec fn at(position: int) -> Self {
        let p = position % (FIELD_COUNT as int);
        if p == 0 {
            Highlighted::ElectricityRate
        } else if p == 1 {
            Highlighted::InitialCost
        } else if p == 2 {
            Highlighted::Wattage
        } else if p == 3 {
            Highlighted::Name
        } else {
            Highlighted::ListName
        }
    }

    /// The field before this one in the cycle.
    pub open spec fn previous(self) -> Self {
        Self::at(self.position() + FIELD_COUNT - 1)
    }

    /// The field after this one in the cycle.
    pub open spec fn next(self) -> Self {
        Self::at(self.position() + 1)
    }

    /// The field reached by moving the focus forward `steps` times.
    pub open spec fn next_times(self, steps: nat) -> Self
        decreases steps,
    {
        if steps == 0 {
            self
        } else {
            self.next().next_times((steps - 1) as nat)
        }
    }

    /// The number of forward moves that lead from this field to `target`.
    pub open spec fn steps_to(self, target: Self) -> nat {
        ((target.position() + FIELD_COUNT - self.position()) % (FIELD_COUNT as int)) as nat
    }

    /// The field that has the focus when the form opens.
    pub fn first() -> (field: Self)
        ensures
            field == Highlighted::ElectricityRate,
            field.position() == 0,
    {
        Highlighted::ElectricityRate
    }

    /// Moves the focus one field back, from the first field to the last.
    pub fn up(&self) -> (field: Self)
        ensures
            field == self.previous(),
    {
        match self {
            Highlighted::ElectricityRate => Highlighted::ListName,
            Highlighted::InitialCost => Highlighted::ElectricityRate,
            Highlighted::Wattage => Highlighted::InitialCost,
            Highlighted::Name => Highlighted::Wattage,
            Highlighted::ListName => Highlighted::Name,
        }
    }

    /// Moves the focus one field on, from the last field to the first.
    pub fn down(&self) -> (field: Self)
        ensures
            field == self.next(),
    {
        match self {
            Highlighted::ElectricityRate => Highlighted::InitialCost,
            Highlighted::InitialCost => Highlighted::Wattage,
            Highlighted::Wattage => Highlighted::Name,
            Highlighted::Name => Highlighted::ListName,
            Highlighted::ListName => Highlighted::ElectricityRate,
        }
    }

    /// A position names its field, and a field its position.
    pub proof fn lemma_position_at(field: Highlighted, position: int)
        ensures
            0 <= field.position() < FIELD_COUNT,
            Self::at(field.position()) == field,
            Self::at(position).position() == position % (FIELD_COUNT as int),
    {
    }

    /// Moving the focus back and then on, or on and then back, returns to the
    /// same field.
    pub proof fn lemma_up_down_inverse(field: Highlighted)
        ensures
            field.previous().next() == field,
            field.next().previous() == field,
    {
    }

    /// Moving the focus forward `steps` times advances the position by
    /// `steps`, round the cycle.
    pub proof fn lemma_next_times_position(field: Highlighted, steps: nat)
        ensures
            field.next_times(steps).position() == (field.position() + steps) % (FIELD_COUNT as int),
        decreases steps,
    {
        if steps > 0 {
            Self::lemma_next_times_position(field.next(), (steps - 1) as nat);
        }
    }

    /// The focus cycle has as many steps as there are fields: from any field,
    /// moving forward that many times returns to it, no smaller positive
    /// number of steps does, and every field is reached on the way exactly
    /// once.
    pub proof fn lemma_focus_cycle(start: Highlighted)
        ensures
            start.next_times(FIELD_COUNT as nat) == start,
            forall|steps: nat|
                0 < steps < FIELD_COUNT ==> #[trigger] start.next_times(steps) != start,
            forall|field: Highlighted| #[trigger]
                start.steps_to(field) < FIELD_COUNT && start.next_times(start.steps_to(field))
                    == field,
            forall|i: nat, j: nat|
                i < FIELD_COUNT && j < FIELD_COUNT && #[trigger] start.next_times(i)
                    == #[trigger] start.next_times(j) ==> i == j,
    {
        Self::lemma_next_times_position(start, FIELD_COUNT as nat);
        assert forall|steps: nat| 0 < steps < FIELD_COUNT implies #[trigger] start.next_times(
            steps,
        ) != start by {
            Self::lemma_next_times_position(start, steps);
        }
        assert forall|field: Highlighted| #[trigger]
            start.steps_to(field) < FIELD_COUNT && start.next_times(start.steps_to(field))
                == field by {
            Self::lemma_next_times_position(start, start.steps_to(field));
        }
        assert forall|i: nat, j: nat|
            i < FIELD_COUNT && j < FIELD_COUNT && #[trigger] start.next_times(i)
                == #[trigger] start.next_times(j) implies i == j by {
            Self::lemma_next_times_position(start, i);
            Self::lemma_next_times_position(start, j);
        }
    }
}

} // verus!
