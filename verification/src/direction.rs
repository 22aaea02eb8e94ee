use vstd::prelude::*;

verus! {

/// One of the four cardinal headings the execution cursor can take.
#[derive(Clone, Copy, Debug, PartialEq, Eq, Structural)]
pub enum Direction {
    North,
    East,
    South,
    West,
}

impl Direction {
    /// The heading directly behind this one: North and South swap,
    /// East and West swap.
    pub open spec fn spec_opposite(&self) -> Direction {
        match self {
            Direction::North => Direction::South,
            Direction::West => Direction::East,
            Direction::South => Direction::North,
            Direction::East => Direction::West,
        }
    }

    /// The heading one quarter turn counter-clockwise from this one:
    /// North, West, South, East cycle in that order.
    pub open spec fn spec_counter_clockwise(&self) -> Direction {
        match self {
            Direction::North => Direction::West,
            Direction::West => Direction::South,
            Direction::South => Direction::East,
            Direction::East => Direction::North,
        }
    }

    #[verifier::when_used_as_spec(spec_opposite)]
    pub fn opposite(&self) -> (r: Direction)
        ensures
            r == self.spec_opposite(),
    {
        match self {
            Direction::North => Direction::South,
            Direction::West => Direction::East,
            Direction::South => Direction::North,
            Direction::East => Direction::West,
        }
    }

    #[verifier::when_used_as_spec(spec_counter_clockwise)]
    pub fn counter_clockwise(&self) -> (r: Direction)
        ensures
            r == self.spec_counter_clockwise(),
    {
        match self {
            Direction::North => Direction::West,
            Direction::West => Direction::South,
            Direction::South => Direction::East,
            Direction::East => Direction::North,
        }
    }
}

/// The heading the selector probes second: one quarter turn clockwise,
/// written as the counter-clockwise turn of the opposite heading.
pub open spec fn right_of(d: Direction) -> Direction {
    d.spec_counter_clockwise().spec_opposite()
}

/// The heading the selector probes third: one quarter turn counter-clockwise.
pub open spec fn left_of(d: Direction) -> Direction {
    d.spec_counter_clockwise()
}

/// Law: `opposite` is an involution — applying it twice returns the
/// original heading.
pub proof fn lemma_opposite_involution(d: Direction)
    ensures
        d.spec_opposite().spec_opposite() == d,
{
}

/// Law: `counter_clockwise` is a 4-cycle — applying it four times returns
/// the original heading.
pub proof fn lemma_counter_clockwise_cycle(d: Direction)
    ensures
        d.spec_counter_clockwise().spec_counter_clockwise().spec_counter_clockwise().spec_counter_clockwise()
            == d,
{
}

/// Law: `counter_clockwise` has no fixed point — it never returns its
/// argument.
pub proof fn lemma_counter_clockwise_no_fixed_point(d: Direction)
    ensures
        d.spec_counter_clockwise() != d,
{
}

/// The four headings probed by the selector — forward, right, left, back —
/// are pairwise distinct.
pub proof fn lemma_probe_headings_distinct(d: Direction)
    ensures
        d != right_of(d),
        d != left_of(d),
        d != d.spec_opposite(),
        right_of(d) != left_of(d),
        right_of(d) != d.spec_opposite(),
        left_of(d) != d.spec_opposite(),
{
}

} // verus!
