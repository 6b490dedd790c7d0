//! Version numbers of the codec, as reported by `LZ4_versionNumber`.

use vstd::prelude::*;

verus! {

/// Weight of the major component in a packed version number.
pub const MAJOR: usize = 10000;

/// Weight of the minor component in a packed version number.
pub const MINOR: usize = 100;

/// A version number split into its three components.
#[derive(Debug, Clone, Copy, PartialEq, Eq)]
pub struct Lz4Version {
    pub major: usize,
    pub minor: usize,
    pub release: usize,
    pub raw: usize,
}

impl Lz4Version {
    /// Splits a packed version number `major * 10000 + minor * 100 + release`.
    pub fn new(version: usize) -> (r: Lz4Version)
        ensures
            r.major == version / MAJOR,
            r.minor == (version % MAJOR) / MINOR,
            r.release == version % MINOR,
            r.raw == version,
            version == r.major * MAJOR + r.minor * MINOR + r.release,
    {
        let mut v: usize = version;
        let major: usize = v / MAJOR;
        assert(major * MAJOR <= v) by (nonlinear_arith)
            requires
                major == v / 10000,
                MAJOR == 10000,
        ;
        v -= major * MAJOR;
        assert(v == version % MAJOR) by (nonlinear_arith)
            requires
                major == version / 10000,
                v == version - major * 10000,
                MAJOR == 10000,
        ;
        let minor: usize = v / MINOR;
        assert(minor * MINOR <= v) by (nonlinear_arith)
            requires
                minor == v / 100,
                MINOR == 100,
        ;
        v -= minor * MINOR;
        assert(v == version % MINOR) by (nonlinear_arith)
            requires
                minor == (version % 10000) / 100,
                v == version % 10000 - minor * 100,
                MINOR == 100,
                MAJOR == 10000,
        ;
        Lz4Version { major, minor, release: v, raw: version }
    }

}

} // verus!
