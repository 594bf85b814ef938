use vstd::prelude::*;

verus! {

/// The six scalar properties of a plot.
#[derive(Debug, Clone, Copy, PartialEq, Eq, Structural)]
pub enum PlotProperty {
    Pitch,
    Yaw,
    MeanX,
    MeanY,
    StdX,
    StdY,
}

/// One end of a property's legal range: `Units(k)` is the number `k`,
/// `HalfTurns(k)` is `k` times pi.
#[derive(Debug, Clone, Copy, PartialEq, Eq, Structural)]
pub enum Bound {
    Units(i32),
    HalfTurns(i32),
}

/// The closed interval `[min, max]` that a property's value must lie in.
#[derive(Debug, Clone, Copy, PartialEq, Eq, Structural)]
pub struct PropertyRange {
    pub min: Bound,
    pub max: Bound,
}

/// The properties in the order in which a widget declares them.
pub open spec fn declared_properties() -> Seq<PlotProperty> {
    seq![
        PlotProperty::Pitch,
        PlotProperty::Yaw,
        PlotProperty::MeanX,
        PlotProperty::MeanY,
        PlotProperty::StdX,
        PlotProperty::StdY,
    ]
}

impl PlotProperty {
    /// The name under which the property is exposed.
    pub open spec fn spec_name(self) -> Seq<char> {
        match self {
            PlotProperty::Pitch => "pitch"@,
            PlotProperty::Yaw => "yaw"@,
            PlotProperty::MeanX => "mean-x"@,
            PlotProperty::MeanY => "mean-y"@,
            PlotProperty::StdX => "std-x"@,
            PlotProperty::StdY => "std-y"@,
        }
    }

    /// The property exposed under `name`, if any.
    pub open spec fn spec_from_name(name: Seq<char>) -> Option<PlotProperty> {
        if name == "pitch"@ {
            Some(PlotProperty::Pitch)
        } else if name == "yaw"@ {
            Some(PlotProperty::Yaw)
        } else if name == "mean-x"@ {
            Some(PlotProperty::MeanX)
        } else if name == "mean-y"@ {
            Some(PlotProperty::MeanY)
        } else if name == "std-x"@ {
            Some(PlotProperty::StdX)
        } else if name == "std-y"@ {
            Some(PlotProperty::StdY)
        } else {
            None
        }
    }

    /// The legal range: pitch in [-pi, pi], yaw in [0, pi], the means in
    /// [-10, 10], the standard deviations in [0, 10].
    pub open spec fn spec_range(self) -> PropertyRange {
        match self {
            PlotProperty::Pitch => PropertyRange { min: Bound::HalfTurns(-1i32), max: Bound::HalfTurns(1) },
            PlotProperty::Yaw => PropertyRange { min: Bound::Units(0), max: Bound::HalfTurns(1) },
            PlotProperty::MeanX | PlotProperty::MeanY => PropertyRange {
                min: Bound::Units(-10i32),
                max: Bound::Units(10),
            },
            PlotProperty::StdX | PlotProperty::StdY => PropertyRange {
                min: Bound::Units(0),
                max: Bound::Units(10),
            },
        }
    }

    /// Every property, in declaration order.
    pub fn all() -> (r: Vec<PlotProperty>)
        ensures
            r@ == declared_properties(),
    {
        let r = vec![
            PlotProperty::Pitch,
            PlotProperty::Yaw,
            PlotProperty::MeanX,
            PlotProperty::MeanY,
            PlotProperty::StdX,
            PlotProperty::StdY,
        ];
        assert(r@ =~= declared_properties());
        r
    }

    /// The name under which the property is exposed.
    pub fn name(self) -> (r: &'static str)
        ensures
            r@ == self.spec_name(),
    {
        match self {
            PlotProperty::Pitch => "pitch",
            PlotProperty::Yaw => "yaw",
            PlotProperty::MeanX => "mean-x",
            PlotProperty::MeanY => "mean-y",
            PlotProperty::StdX => "std-x",
            PlotProperty::StdY => "std-y",
        }
    }

    /// Looks a property up by its exposed name; `None` for any other name.
    pub fn from_name(name: &str) -> (r: Option<PlotProperty>)
        ensures
            r == PlotProperty::spec_from_name(name@),
    {
        if same_text(name, "pitch") {
            Some(PlotProperty::Pitch)
        } else if same_text(name, "yaw") {
            Some(PlotProperty::Yaw)
        } else if same_text(name, "mean-x") {
            Some(PlotProperty::MeanX)
        } else if same_text(name, "mean-y") {
            Some(PlotProperty::MeanY)
        } else if same_text(name, "std-x") {
            Some(PlotProperty::StdX)
        } else if same_text(name, "std-y") {
            Some(PlotProperty::StdY)
        } else {
            None
        }
    }

    /// The closed interval that a value of this property must lie in.
    pub fn range(self) -> (r: PropertyRange)
        ensures
            r == self.spec_range(),
    {
        match self {
            PlotProperty::Pitch => PropertyRange { min: Bound::HalfTurns(-1i32), max: Bound::HalfTurns(1) },
            PlotProperty::Yaw => PropertyRange { min: Bound::Units(0), max: Bound::HalfTurns(1) },
            PlotProperty::MeanX | PlotProperty::MeanY => PropertyRange {
                min: Bound::Units(-10i32),
                max: Bound::Units(10),
            },
            PlotProperty::StdX | PlotProperty::StdY => PropertyRange {
                min: Bound::Units(0),
                max: Bound::Units(10),
            },
        }
    }
}

/// Looking up a property's own name gives that property back (so no two
/// properties share a name), and every property is among those declared.
pub proof fn lemma_name_round_trip(p: PlotProperty)
    ensures
        PlotProperty::spec_from_name(p.spec_name()) == Some(p),
        declared_properties().contains(p),
{
    reveal_strlit("pitch");
    reveal_strlit("yaw");
    reveal_strlit("mean-x");
    reveal_strlit("mean-y");
    reveal_strlit("std-x");
    reveal_strlit("std-y");
    assert("yaw"@.len() == 3 && "pitch"@.len() == 5 && "std-x"@.len() == 5 && "std-y"@.len() == 5);
    assert("mean-x"@.len() == 6 && "mean-y"@.len() == 6);
    assert("pitch"@[0] != "std-x"@[0] && "pitch"@[0] != "std-y"@[0]);
    assert("std-x"@[4] != "std-y"@[4]);
    assert("mean-x"@[5] != "mean-y"@[5]);
    assert(declared_properties()[0] == PlotProperty::Pitch);
    assert(declared_properties()[1] == PlotProperty::Yaw);
    assert(declared_properties()[2] == PlotProperty::MeanX);
    assert(declared_properties()[3] == PlotProperty::MeanY);
    assert(declared_properties()[4] == PlotProperty::StdX);
    assert(declared_properties()[5] == PlotProperty::StdY);
}

/// Whether two strings hold the same characters.
fn same_text(a: &str, b: &str) -> (r: bool)
    ensures
        r == (a@ == b@),
{
    let n = a.unicode_len();
    if n != b.unicode_len() {
        return false;
    }
    let mut i: usize = 0;
    while i < n
        invariant
            n as nat == a@.len(),
            n as nat == b@.len(),
            i <= n,
            forall|k: int| 0 <= k < i ==> a@[k] == b@[k],
        decreases n - i,
    {
        if a.get_char(i) != b.get_char(i) {
            return false;
        }
        i = i + 1;
    }
    assert(a@ =~= b@);
    true
}

} // verus!
