//! Value types shared by the records of the case-management store.

use vstd::prelude::*;

verus! {

/// Sex recorded for a client.
#[derive(Clone, Copy, Debug, PartialEq, Eq, Structural)]
pub enum JenisKelaminEnum {
    LakiLaki,
    Perempuan,
}

/// Occupation recorded for a client.
#[derive(Clone, Copy, Debug, PartialEq, Eq, Structural)]
pub enum JenisPekerjaanEnum {
    BelumTidakBekerja,
    PegawaiNegeriSipil,
    TentaraNasionalIndonesia,
    KepolisianRI,
    KaryawanBUMN,
    KaryawanBUMD,
    AnggotaDPRRI,
    AnggotaDPD,
    AnggotaBPK,
    Presiden,
    WakilPresiden,
    AnggotaMahkamahKonstitusi,
    AnggotaKabinetKementerian,
    DutaBesar,
    Gubernur,
    WakilGubernur,
    Bupati,
    WakilBupati,
    Walikota,
    WakilWalikota,
    AnggotaDPRDProvinsi,
    AnggotaDPRDKabupatenKota,
    Pengacara,
    Notaris,
    Peneliti,
    PerangkatDesa,
    KepalaDesa,
    Dosen,
    Guru,
    Perdagangan,
    Industri,
    Konstruksi,
    Transportasi,
    KaryawanSwasta,
    KaryawanHonorer,
    BuruhHarianLepas,
    PembantuRumahTangga,
    TukangCukur,
    TukangListrik,
    TukangBatu,
    TukangKayu,
    TukangSolSepatu,
    TukangLasPandaiBesi,
    TukangJahit,
    TukangGigi,
    PenataRias,
    PenataBusana,
    PenataRambut,
    Mekanik,
    Seniman,
    Tabib,
    Paraji,
    PerancangBusana,
    Penterjemah,
    Wartawan,
    JuruMasak,
    PromotorAcara,
    Pilot,
    Arsitek,
    Akuntan,
    Konsultan,
    PenyiarTelevisi,
    PenyiarRadio,
    Pelaut,
    Sopir,
    Pialang,
    Paranormal,
    Pedagang,
    Wiraswasta,
    PetaniPekebun,
    Peternak,
    BuruhTaniPerkebunan,
    BuruhPeternakan,
    NelayanPerikanan,
    BuruhNelayanPerikanan,
    ImamMesjid,
    Pendeta,
    Pastor,
    UstadzMubaligh,
    Biarawati,
    PelajarMahasiswa,
    Dokter,
    Bidan,
    Perawat,
    Apoteker,
    PsikiaterPsikolog,
    Pensiunan,
    MengurusRumahTangga,
    Lainnya,
}

/// Citizenship of a client: Indonesian or foreign.
#[derive(Clone, Copy, Debug, PartialEq, Eq, Structural)]
pub enum KewarganegaraanEnum {
    WNI,
    WNA,
}

/// How a mandatory check-in was made: online by the client, at a self-service kiosk, or by an officer.
#[derive(Clone, Copy, Debug, PartialEq, Eq, Structural)]
pub enum MetodeLaporEnum {
    Online,
    SelfService,
    Petugas,
}

/// Kind of institution that requested an intake report.
#[derive(Clone, Copy, Debug, PartialEq, Eq, Structural)]
pub enum NamaInstansiEnum {
    LembagaPemasyarakatan,
    RumahTahananNegara,
    BalaiPemasyarakatan,
    KejaksaanNegeri,
    PengadilanNegeri,
    KepolisianResor,
    KepolisianSektor,
    KepolisianDaerah,
    KepolisianRepublikIndonesia,
    PengadilanTinggi,
    MahkamahAgung,
    Lainnya,
}

/// Highest level of schooling completed.
#[derive(Clone, Copy, Debug, PartialEq, Eq, Structural)]
pub enum TingkatPendidikanEnum {
    TidakSekolah,
    SDTidakLulus,
    SDAtauSederajat,
    SMPAtauSederajat,
    SMAAtauSederajat,
    D1AtauSederajat,
    D2AtauSederajat,
    D3AtauSederajat,
    S1AtauSederajat,
    S2AtauSederajat,
    S3AtauSederajat,
}

/// Whether a client is supervised as an adult or as a juvenile.
#[derive(Clone, Copy, Debug, PartialEq, Eq, Structural)]
pub enum TipeKlienEnum {
    Dewasa,
    Anak,
}

/// Role of a staff account, in increasing order of scope: an officer sees the clients assigned to them,
/// a local-office admin their office, a regional admin their region, a super admin everything.
#[derive(Clone, Copy, Debug, PartialEq, Eq, Structural)]
pub enum UserRoleEnum {
    Pegawai,
    AdminBapas,
    AdminKanwil,
    SuperAdmin,
}

/// Whether a staff account may sign in.
#[derive(Clone, Copy, Debug, PartialEq, Eq, Structural)]
pub enum UserStatusAktifEnum {
    Aktif,
    Deaktif,
}

/// Employment status of a staff member.
#[derive(Clone, Copy, Debug, PartialEq, Eq, Structural)]
pub enum UserStatusKepegawaianEnum {
    Aktif,
    PindahJabatan,
    Pensiun,
    Lainnya,
}

impl UserRoleEnum {
    /// Position of the role in the order of increasing scope.
    pub open spec fn rank(self) -> nat {
        match self {
            UserRoleEnum::Pegawai => 0,
            UserRoleEnum::AdminBapas => 1,
            UserRoleEnum::AdminKanwil => 2,
            UserRoleEnum::SuperAdmin => 3,
        }
    }
}

} // verus!
