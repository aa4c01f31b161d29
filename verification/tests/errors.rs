use vorbis_encoder::VorbisError;

#[test]
fn each_recognised_code_maps_to_its_variant() {
    assert_eq!(VorbisError::from(-132), VorbisError::NotVorbis);
    assert_eq!(VorbisError::from(-134), VorbisError::VersionMismatch);
    assert_eq!(VorbisError::from(-133), VorbisError::BadHeader);
    assert_eq!(VorbisError::from(-131), VorbisError::InvalidSetup);
    assert_eq!(VorbisError::from(-3), VorbisError::Hole);
    assert_eq!(VorbisError::from(-128), VorbisError::ReadError);
    assert_eq!(VorbisError::from(-130), VorbisError::Unimplemented);
    assert_eq!(VorbisError::from(-129), VorbisError::InternalError);
}

#[test]
fn unrecognised_codes_are_kept_verbatim() {
    assert_eq!(VorbisError::from(-999), VorbisError::Unknown(-999));
    assert_eq!(VorbisError::from(7), VorbisError::Unknown(7));
    assert_eq!(VorbisError::from(-1), VorbisError::Unknown(-1));
}

#[test]
fn messages_describe_the_errors() {
    assert_eq!(
        VorbisError::ReadError.message(),
        "A read from media returned an error"
    );
    assert_eq!(
        VorbisError::NotVorbis.message(),
        "Bitstream does not contain any Vorbis data"
    );
    assert_eq!(
        VorbisError::VersionMismatch.message(),
        "Vorbis version mismatch"
    );
    assert_eq!(
        VorbisError::BadHeader.message(),
        "Invalid Vorbis bitstream header"
    );
    assert_eq!(VorbisError::Hole.message(), "Interruption of data");
    assert_eq!(
        VorbisError::InvalidSetup.message(),
        "Invalid setup request, eg, out of range argument or initial file headers are corrupt"
    );
    assert_eq!(
        VorbisError::Unimplemented.message(),
        "Unimplemented mode; unable to comply with quality level request."
    );
    assert_eq!(
        VorbisError::InternalError.message(),
        "Internal libvorbis error"
    );
    assert_eq!(
        VorbisError::Unknown(-42).message(),
        "Unknown libvorbis error"
    );
}

#[test]
fn status_codes_match_the_engine_header() {
    assert_eq!(vorbis_encoder::error::OV_HOLE, vorbis_sys::OV_HOLE);
    assert_eq!(vorbis_encoder::error::OV_EREAD, vorbis_sys::OV_EREAD);
    assert_eq!(vorbis_encoder::error::OV_EFAULT, vorbis_sys::OV_EFAULT);
    assert_eq!(vorbis_encoder::error::OV_EIMPL, vorbis_sys::OV_EIMPL);
    assert_eq!(vorbis_encoder::error::OV_EINVAL, vorbis_sys::OV_EINVAL);
    assert_eq!(
        vorbis_encoder::error::OV_ENOTVORBIS,
        vorbis_sys::OV_ENOTVORBIS
    );
    assert_eq!(
        vorbis_encoder::error::OV_EBADHEADER,
        vorbis_sys::OV_EBADHEADER
    );
    assert_eq!(vorbis_encoder::error::OV_EVERSION, vorbis_sys::OV_EVERSION);
}
