use dicom::Tag;

const DICTIONARY: [(u16, u16, Tag, &str); 34] = [
    (0x0002, 0x0000, Tag::x0002x0000, "FileMetaInformationGroupLength"),
    (0x0002, 0x0001, Tag::x0002x0001, "FileMetaInformationVersion"),
    (0x0002, 0x0002, Tag::x0002x0002, "MediaStorageSOPClassUID"),
    (0x0002, 0x0003, Tag::x0002x0003, "MediaStorageSOPInstanceUID"),
    (0x0002, 0x0010, Tag::x0002x0010, "TransferSyntaxUID"),
    (0x0002, 0x0012, Tag::x0002x0012, "ImplementationClassUID"),
    (0x0002, 0x0013, Tag::x0002x0013, "ImplementationVersionName"),
    (0x0008, 0x0016, Tag::x0008x0016, "SOPClassUID"),
    (0x0008, 0x0018, Tag::x0008x0018, "SOPInstanceUID"),
    (0x0008, 0x0020, Tag::x0008x0020, "StudyDate"),
    (0x0008, 0x0060, Tag::x0008x0060, "Modality"),
    (0x0008, 0x0100, Tag::x0008x0100, "CodeValue"),
    (0x0008, 0x0102, Tag::x0008x0102, "CodingSchemeDesignator"),
    (0x0008, 0x0104, Tag::x0008x0104, "CodeMeaning"),
    (0x0010, 0x0010, Tag::x0010x0010, "PatientName"),
    (0x0010, 0x0020, Tag::x0010x0020, "PatientID"),
    (0x0010, 0x0030, Tag::x0010x0030, "PatientBirthDate"),
    (0x0010, 0x0040, Tag::x0010x0040, "PatientSex"),
    (0x0010, 0x1010, Tag::x0010x1010, "PatientAge"),
    (0x0028, 0x0002, Tag::x0028x0002, "SamplesPerPixel"),
    (0x0028, 0x0004, Tag::x0028x0004, "PhotometricInterpretation"),
    (0x0028, 0x0008, Tag::x0028x0008, "NumberOfFrames"),
    (0x0028, 0x0010, Tag::x0028x0010, "Rows"),
    (0x0028, 0x0011, Tag::x0028x0011, "Columns"),
    (0x0028, 0x0100, Tag::x0028x0100, "BitsAllocated"),
    (0x0028, 0x0101, Tag::x0028x0101, "BitsStored"),
    (0x0028, 0x0102, Tag::x0028x0102, "HighBit"),
    (0x0028, 0x0103, Tag::x0028x0103, "PixelRepresentation"),
    (0x0028, 0x1050, Tag::x0028x1050, "WindowCenter"),
    (0x0028, 0x1051, Tag::x0028x1051, "WindowWidth"),
    (0x7FE0, 0x0010, Tag::x7FE0x0010, "PixelData"),
    (0xFFFE, 0xE000, Tag::xFFFExE000, "Item"),
    (0xFFFE, 0xE00D, Tag::xFFFExE00D, "ItemDelimitationItem"),
    (0xFFFE, 0xE0DD, Tag::xFFFExE0DD, "SequenceDelimitationItem"),
];

#[test]
fn every_tag_of_the_dictionary_is_found_by_its_numbers() {
    for (group, element, tag, _) in DICTIONARY {
        let found = Tag::from_values(group, element);
        assert_eq!(found, tag);
        assert!(!matches!(found, Tag::UNKNOWN(_, _)));
        assert_eq!(found.get_group(), group);
        assert_eq!(found.get_element(), element);
        assert_eq!(found.multiplicity(), 1);
    }
}

#[test]
fn every_tag_of_the_dictionary_is_found_by_its_keyword() {
    for (group, element, tag, keyword) in DICTIONARY {
        assert_eq!(tag.get_keyword(), keyword);
        let found = Tag::lookup_by_kw(tag.get_keyword()).unwrap();
        assert_eq!(found, tag);
        assert_eq!((found.get_group(), found.get_element()), (group, element));
    }
}

#[test]
fn other_numbers_are_kept_as_they_are() {
    for (group, element) in [(0u16, 0u16), (0x0002, 0x0011), (0x7FE0, 0x0011), (0xFFFF, 0xFFFF)] {
        let tag = Tag::from_values(group, element);
        assert_eq!(tag, Tag::UNKNOWN(group, element));
        assert_eq!(tag.get_group(), group);
        assert_eq!(tag.get_element(), element);
        assert_eq!(tag.get_keyword(), "Unknown");
        assert_eq!(tag.multiplicity(), 0);
    }
    assert_eq!(Tag::lookup_by_kw("Unknown"), None);
    assert_eq!(Tag::lookup_by_kw("patientname"), None);
    assert_eq!(Tag::lookup_by_kw(""), None);
}

#[test]
fn tags_in_words() {
    assert_eq!(Tag::x0010x0010.to_string(), "Patient's Name");
    assert_eq!(Tag::x0010x0010.debug_string(), "x0010x0010: Patient's Name");
    assert_eq!(Tag::UNKNOWN(0x0008, 0x1f0a).to_string(), "Unkown tag: x8, x1f0a");
    assert_eq!(Tag::UNKNOWN(0, 0xFFFF).debug_string(), "Unkown tag: x0, xffff");
}
