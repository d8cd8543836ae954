use vstd::prelude::*;

verus! {

/// The surface of the dice tray. Each material is a physics preset; the
/// toggle in the right panel cycles through them in a fixed order.
#[derive(Clone, Copy, Debug, PartialEq, Eq, Structural)]
pub enum TrayMaterial {
    Felt,
    Hardwood,
    Carpet,
    Ice,
}

/// Position of a material in the cycle Felt, Hardwood, Carpet, Ice.
pub open spec fn material_index(m: TrayMaterial) -> int {
    match m {
        TrayMaterial::Felt => 0,
        TrayMaterial::Hardwood => 1,
        TrayMaterial::Carpet => 2,
        TrayMaterial::Ice => 3,
    }
}

/// The material that follows `m` in the cycle.
pub open spec fn spec_next(m: TrayMaterial) -> TrayMaterial {
    match m {
        TrayMaterial::Felt => TrayMaterial::Hardwood,
        TrayMaterial::Hardwood => TrayMaterial::Carpet,
        TrayMaterial::Carpet => TrayMaterial::Ice,
        TrayMaterial::Ice => TrayMaterial::Felt,
    }
}

/// The caption of the material toggle for `m`.
pub open spec fn material_label(m: TrayMaterial) -> Seq<char> {
    match m {
        TrayMaterial::Felt => "FELT"@,
        TrayMaterial::Hardwood => "HARDWOOD"@,
        TrayMaterial::Carpet => "CARPET"@,
        TrayMaterial::Ice => "ICE"@,
    }
}

/// The texture that the tray shows for `m`.
pub open spec fn material_texture(m: TrayMaterial) -> Seq<char> {
    match m {
        TrayMaterial::Felt => "tray_felt"@,
        TrayMaterial::Hardwood => "tray_hardwood"@,
        TrayMaterial::Carpet => "tray_carpet"@,
        TrayMaterial::Ice => "tray_ice"@,
    }
}

impl TrayMaterial {
    /// The next preset in the cycle Felt, Hardwood, Carpet, Ice, Felt.
    pub fn next(self) -> (r: TrayMaterial)
        ensures
            r == spec_next(self),
            material_index(r) == (material_index(self) + 1) % 4,
    {
        match self {
            TrayMaterial::Felt => TrayMaterial::Hardwood,
            TrayMaterial::Hardwood => TrayMaterial::Carpet,
            TrayMaterial::Carpet => TrayMaterial::Ice,
            TrayMaterial::Ice => TrayMaterial::Felt,
        }
    }

    /// The caption shown on the material toggle.
    pub fn label(self) -> (r: &'static str)
        ensures
            r@ == material_label(self),
    {
        match self {
            TrayMaterial::Felt => "FELT",
            TrayMaterial::Hardwood => "HARDWOOD",
            TrayMaterial::Carpet => "CARPET",
            TrayMaterial::Ice => "ICE",
        }
    }

    /// The texture id of the tray background for this material.
    pub fn tex_id(self) -> (r: &'static str)
        ensures
            r@ == material_texture(self),
    {
        match self {
            TrayMaterial::Felt => "tray_felt",
            TrayMaterial::Hardwood => "tray_hardwood",
            TrayMaterial::Carpet => "tray_carpet",
            TrayMaterial::Ice => "tray_ice",
        }
    }
}

/// Four presses of the material toggle bring the tray back to where it
/// started, and fewer than four never do: the toggle visits every material.
pub proof fn lemma_next_cycles(m: TrayMaterial)
    ensures
        spec_next(spec_next(spec_next(spec_next(m)))) == m,
        spec_next(m) != m,
        spec_next(spec_next(m)) != m,
        spec_next(spec_next(spec_next(m))) != m,
{
}

/// Distinct materials have distinct captions and distinct tray textures,
/// so the caption always tells which preset is active.
pub proof fn lemma_material_names_distinct(a: TrayMaterial, b: TrayMaterial)
    requires
        a != b,
    ensures
        material_label(a) != material_label(b),
        material_texture(a) != material_texture(b),
{
    reveal_strlit("FELT");
    reveal_strlit("HARDWOOD");
    reveal_strlit("CARPET");
    reveal_strlit("ICE");
    reveal_strlit("tray_felt");
    reveal_strlit("tray_hardwood");
    reveal_strlit("tray_carpet");
    reveal_strlit("tray_ice");
    assert(material_label(a).len() != material_label(b).len() || material_label(a)[0] != material_label(b)[0]);
    assert(material_texture(a).len() != material_texture(b).len() || material_texture(a)[5] != material_texture(b)[5]);
}

} // verus!
