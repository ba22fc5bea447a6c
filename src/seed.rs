//! Values read from the seed files that load clients and staff accounts. Labels there are
//! matched without regard to case or surrounding white space.

use vstd::prelude::*;
use crate::text::{lower_of, normalize_label, text_is, trim_of};

verus! {

/// Whether a seeded client is an adult or a juvenile.
#[derive(Clone, Copy, Debug, PartialEq, Eq, Structural)]
pub enum TipeKlien {
    Dewasa,
    Anak,
}

/// Highest schooling of a seeded client.
#[derive(Clone, Copy, Debug, PartialEq, Eq, Structural)]
pub enum TingkatPendidikan {
    TidakSekolah,
    SdTidakLulus,
    SdAtauSederajat,
    SmpAtauSederajat,
    SmaAtauSederajat,
    D1AtauSederajat,
    D2AtauSederajat,
    D3AtauSederajat,
    S1AtauSederajat,
    S2AtauSederajat,
    S3AtauSederajat,
}

/// Sex of a seeded client.
#[derive(Clone, Copy, Debug, PartialEq, Eq, Structural)]
pub enum JenisKelamin {
    LakiLaki,
    Perempuan,
}

/// Role of a seeded staff account.
#[derive(Clone, Copy, Debug, PartialEq, Eq, Structural)]
pub enum UserRole {
    Pegawai,
    AdminBapas,
    SuperAdmin,
    AdminKanwil,
}

/// Employment status of a seeded staff account.
#[derive(Clone, Copy, Debug, PartialEq, Eq, Structural)]
pub enum UserStatusKepegawaian {
    Aktif,
    PindahJabatan,
    Pensiun,
    Lainya,
}

/// Whether a seeded staff account may sign in.
#[derive(Clone, Copy, Debug, PartialEq, Eq, Structural)]
pub enum UserStatusAktif {
    Aktif,
    Deaktif,
}

/// The client type that a normalized label names.
pub open spec fn tipe_klien_of(s: Seq<char>) -> Option<TipeKlien> {
    if s == "dewasa"@ {
        Some(TipeKlien::Dewasa)
    } else if s == "anak"@ {
        Some(TipeKlien::Anak)
    } else {
        None
    }
}

/// The schooling level that a normalized label names.
pub open spec fn tingkat_pendidikan_of(s: Seq<char>) -> Option<TingkatPendidikan> {
    if s == "tidak sekolah"@ {
        Some(TingkatPendidikan::TidakSekolah)
    } else if s == "sd tidak lulus"@ {
        Some(TingkatPendidikan::SdTidakLulus)
    } else if s == "sd atau sederajat"@ {
        Some(TingkatPendidikan::SdAtauSederajat)
    } else if s == "smp atau sederajat"@ {
        Some(TingkatPendidikan::SmpAtauSederajat)
    } else if s == "sma atau sederajat"@ {
        Some(TingkatPendidikan::SmaAtauSederajat)
    } else if s == "d1 atau sederajat"@ {
        Some(TingkatPendidikan::D1AtauSederajat)
    } else if s == "d2 atau sederajat"@ {
        Some(TingkatPendidikan::D2AtauSederajat)
    } else if s == "d3 atau sederajat"@ {
        Some(TingkatPendidikan::D3AtauSederajat)
    } else if s == "s1 atau sederajat"@ {
        Some(TingkatPendidikan::S1AtauSederajat)
    } else if s == "s2 atau sederajat"@ {
        Some(TingkatPendidikan::S2AtauSederajat)
    } else if s == "s3 atau sederajat"@ {
        Some(TingkatPendidikan::S3AtauSederajat)
    } else {
        None
    }
}

impl TipeKlien {
    /// The client type named by a label already trimmed and lowercased.
    pub fn from_normalized(s: &str) -> (r: Option<TipeKlien>)
        ensures
            r == tipe_klien_of(s@),
    {
        if text_is(s, "dewasa") {
            Some(TipeKlien::Dewasa)
        } else if text_is(s, "anak") {
            Some(TipeKlien::Anak)
        } else {
            None
        }
    }

    /// The client type named by a label in any case, with white space around it.
    pub fn parse_label(s: &str) -> (r: Option<TipeKlien>)
        ensures
            r == tipe_klien_of(lower_of(trim_of(s@))),
    {
        let n = normalize_label(s);
        TipeKlien::from_normalized(n.as_str())
    }
}

impl TingkatPendidikan {
    /// The schooling level named by a label already trimmed and lowercased.
    pub fn from_normalized(s: &str) -> (r: Option<TingkatPendidikan>)
        ensures
            r == tingkat_pendidikan_of(s@),
    {
        if text_is(s, "tidak sekolah") {
            Some(TingkatPendidikan::TidakSekolah)
        } else if text_is(s, "sd tidak lulus") {
            Some(TingkatPendidikan::SdTidakLulus)
        } else if text_is(s, "sd atau sederajat") {
            Some(TingkatPendidikan::SdAtauSederajat)
        } else if text_is(s, "smp atau sederajat") {
            Some(TingkatPendidikan::SmpAtauSederajat)
        } else if text_is(s, "sma atau sederajat") {
            Some(TingkatPendidikan::SmaAtauSederajat)
        } else if text_is(s, "d1 atau sederajat") {
            Some(TingkatPendidikan::D1AtauSederajat)
        } else if text_is(s, "d2 atau sederajat") {
            Some(TingkatPendidikan::D2AtauSederajat)
        } else if text_is(s, "d3 atau sederajat") {
            Some(TingkatPendidikan::D3AtauSederajat)
        } else if text_is(s, "s1 atau sederajat") {
            Some(TingkatPendidikan::S1AtauSederajat)
        } else if text_is(s, "s2 atau sederajat") {
            Some(TingkatPendidikan::S2AtauSederajat)
        } else if text_is(s, "s3 atau sederajat") {
            Some(TingkatPendidikan::S3AtauSederajat)
        } else {
            None
        }
    }

    /// The schooling level named by a label in any case, with white space around it.
    pub fn parse_label(s: &str) -> (r: Option<TingkatPendidikan>)
        ensures
            r == tingkat_pendidikan_of(lower_of(trim_of(s@))),
    {
        let n = normalize_label(s);
        TingkatPendidikan::from_normalized(n.as_str())
    }
}

} // verus!
