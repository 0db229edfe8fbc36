use vstd::prelude::*;

use crate::text::str_eq;

verus! {

/// The closed set of image formats the service understands.
///
/// Each format is tied, bijectively, to a lowercase name, a MIME content
/// type, and a wire code persisted with every stored record.
#[derive(Clone, Copy, PartialEq, Eq, Structural, Debug)]
pub enum ImageFormat {
    PNG,
    JPEG,
    GIF,
    BMP,
    ICO,
}

/// An unrecognized format name, content type, or wire code.
#[derive(Debug)]
pub struct FormatError {
    pub message: String,
}

/// The format owning a given wire code, if any.
pub open spec fn spec_format_of_code(c: int) -> Option<ImageFormat> {
    if c == 1 {
        Some(ImageFormat::PNG)
    } else if c == 2 {
        Some(ImageFormat::JPEG)
    } else if c == 3 {
        Some(ImageFormat::GIF)
    } else if c == 4 {
        Some(ImageFormat::BMP)
    } else if c == 5 {
        Some(ImageFormat::ICO)
    } else {
        None
    }
}

/// The format owning a given lowercase name, if any.
pub open spec fn spec_format_of_name(s: Seq<char>) -> Option<ImageFormat> {
    if s == "png"@ {
        Some(ImageFormat::PNG)
    } else if s == "jpeg"@ {
        Some(ImageFormat::JPEG)
    } else if s == "gif"@ {
        Some(ImageFormat::GIF)
    } else if s == "bmp"@ {
        Some(ImageFormat::BMP)
    } else if s == "ico"@ {
        Some(ImageFormat::ICO)
    } else {
        None
    }
}

/// The format owning a given MIME content type, if any.
pub open spec fn spec_format_of_content_type(s: Seq<char>) -> Option<ImageFormat> {
    if s == "image/png"@ {
        Some(ImageFormat::PNG)
    } else if s == "image/jpeg"@ {
        Some(ImageFormat::JPEG)
    } else if s == "image/gif"@ {
        Some(ImageFormat::GIF)
    } else if s == "image/bmp"@ {
        Some(ImageFormat::BMP)
    } else if s == "image/ico"@ {
        Some(ImageFormat::ICO)
    } else {
        None
    }
}

impl ImageFormat {
    /// The wire code persisted alongside each stored record.
    pub open spec fn spec_code(self) -> int {
        match self {
            ImageFormat::PNG => 1,
            ImageFormat::JPEG => 2,
            ImageFormat::GIF => 3,
            ImageFormat::BMP => 4,
            ImageFormat::ICO => 5,
        }
    }

    /// The lowercase name of the format.
    pub open spec fn spec_name(self) -> Seq<char> {
        match self {
            ImageFormat::PNG => "png"@,
            ImageFormat::JPEG => "jpeg"@,
            ImageFormat::GIF => "gif"@,
            ImageFormat::BMP => "bmp"@,
            ImageFormat::ICO => "ico"@,
        }
    }

    /// The MIME content type of the format.
    pub open spec fn spec_content_type(self) -> Seq<char> {
        match self {
            ImageFormat::PNG => "image/png"@,
            ImageFormat::JPEG => "image/jpeg"@,
            ImageFormat::GIF => "image/gif"@,
            ImageFormat::BMP => "image/bmp"@,
            ImageFormat::ICO => "image/ico"@,
        }
    }

    /// The wire code of the format.
    pub fn code(self) -> (c: i32)
        ensures
            c == self.spec_code(),
    {
        match self {
            ImageFormat::PNG => 1,
            ImageFormat::JPEG => 2,
            ImageFormat::GIF => 3,
            ImageFormat::BMP => 4,
            ImageFormat::ICO => 5,
        }
    }

    /// Recovers a format from its wire code.
    pub fn from_code(code: i32) -> (r: Option<ImageFormat>)
        ensures
            r == spec_format_of_code(code as int),
    {
        if code == 1 {
            Some(ImageFormat::PNG)
        } else if code == 2 {
            Some(ImageFormat::JPEG)
        } else if code == 3 {
            Some(ImageFormat::GIF)
        } else if code == 4 {
            Some(ImageFormat::BMP)
        } else if code == 5 {
            Some(ImageFormat::ICO)
        } else {
            None
        }
    }

    /// The lowercase name of the format.
    pub fn name(self) -> (r: &'static str)
        ensures
            r@ == self.spec_name(),
    {
        match self {
            ImageFormat::PNG => "png",
            ImageFormat::JPEG => "jpeg",
            ImageFormat::GIF => "gif",
            ImageFormat::BMP => "bmp",
            ImageFormat::ICO => "ico",
        }
    }

    /// The MIME content type of the format.
    pub fn content_type(self) -> (r: &'static str)
        ensures
            r@ == self.spec_content_type(),
    {
        match self {
            ImageFormat::PNG => "image/png",
            ImageFormat::JPEG => "image/jpeg",
            ImageFormat::GIF => "image/gif",
            ImageFormat::BMP => "image/bmp",
            ImageFormat::ICO => "image/ico",
        }
    }

    /// Parses a MIME content type such as `image/png`; fails on anything
    /// outside the closed set.
    pub fn from_content_type(content_type: &str) -> (r: Result<ImageFormat, FormatError>)
        ensures
            match r {
                Ok(f) => spec_format_of_content_type(content_type@) == Some(f),
                Err(_) => spec_format_of_content_type(content_type@) is None,
            },
    {
        if str_eq(content_type, "image/png") {
            Ok(ImageFormat::PNG)
        } else if str_eq(content_type, "image/jpeg") {
            Ok(ImageFormat::JPEG)
        } else if str_eq(content_type, "image/gif") {
            Ok(ImageFormat::GIF)
        } else if str_eq(content_type, "image/bmp") {
            Ok(ImageFormat::BMP)
        } else if str_eq(content_type, "image/ico") {
            Ok(ImageFormat::ICO)
        } else {
            Err(FormatError { message: "unknown image content type".to_owned() })
        }
    }

    /// Parses a lowercase format name such as `png`; fails on anything
    /// outside the closed set.
    pub fn from_name(name: &str) -> (r: Result<ImageFormat, FormatError>)
        ensures
            match r {
                Ok(f) => spec_format_of_name(name@) == Some(f),
                Err(_) => spec_format_of_name(name@) is None,
            },
    {
        if str_eq(name, "png") {
            Ok(ImageFormat::PNG)
        } else if str_eq(name, "jpeg") {
            Ok(ImageFormat::JPEG)
        } else if str_eq(name, "gif") {
            Ok(ImageFormat::GIF)
        } else if str_eq(name, "bmp") {
            Ok(ImageFormat::BMP)
        } else if str_eq(name, "ico") {
            Ok(ImageFormat::ICO)
        } else {
            Err(FormatError { message: "unknown image format".to_owned() })
        }
    }
}

/// The name, content type, and wire code mappings are bijections on the
/// closed format set: every format is recovered from its own name, content
/// type, or code, and nothing else maps to it.
pub proof fn lemma_format_bijection()
    ensures
        forall|f: ImageFormat| #[trigger] spec_format_of_name(f.spec_name()) == Some(f),
        forall|f: ImageFormat| #[trigger] spec_format_of_content_type(f.spec_content_type())
            == Some(f),
        forall|f: ImageFormat| #[trigger] spec_format_of_code(f.spec_code()) == Some(f),
        forall|s: Seq<char>, f: ImageFormat| spec_format_of_name(s) == Some(f) ==> s
            == f.spec_name(),
        forall|s: Seq<char>, f: ImageFormat| spec_format_of_content_type(s) == Some(f) ==> s
            == f.spec_content_type(),
        forall|c: int, f: ImageFormat| spec_format_of_code(c) == Some(f) ==> c == f.spec_code(),
        forall|f: ImageFormat| #[trigger] f.spec_content_type() == "image/"@ + f.spec_name(),
{
    reveal_strlit("png");
    reveal_strlit("jpeg");
    reveal_strlit("gif");
    reveal_strlit("bmp");
    reveal_strlit("ico");
    reveal_strlit("image/png");
    reveal_strlit("image/jpeg");
    reveal_strlit("image/gif");
    reveal_strlit("image/bmp");
    reveal_strlit("image/ico");
    assert("png"@.len() == 3 && "jpeg"@.len() == 4 && "gif"@.len() == 3 && "bmp"@.len() == 3
        && "ico"@.len() == 3);
    assert("png"@[0] == 'p' && "gif"@[0] == 'g' && "bmp"@[0] == 'b' && "ico"@[0] == 'i');
    assert("image/png"@.len() == 9 && "image/jpeg"@.len() == 10 && "image/gif"@.len() == 9
        && "image/bmp"@.len() == 9 && "image/ico"@.len() == 9);
    assert("image/png"@[6] == 'p' && "image/gif"@[6] == 'g' && "image/bmp"@[6] == 'b'
        && "image/ico"@[6] == 'i');
    reveal_strlit("image/");
    assert forall|f: ImageFormat| #[trigger] f.spec_content_type() == "image/"@ + f.spec_name() by {
        match f {
            ImageFormat::PNG => assert("image/png"@ =~= "image/"@ + "png"@),
            ImageFormat::JPEG => assert("image/jpeg"@ =~= "image/"@ + "jpeg"@),
            ImageFormat::GIF => assert("image/gif"@ =~= "image/"@ + "gif"@),
            ImageFormat::BMP => assert("image/bmp"@ =~= "image/"@ + "bmp"@),
            ImageFormat::ICO => assert("image/ico"@ =~= "image/"@ + "ico"@),
        }
    }
    assert forall|f: ImageFormat| #[trigger] spec_format_of_name(f.spec_name()) == Some(f) by {
        match f {
            ImageFormat::PNG => assert(spec_format_of_name("png"@) == Some(ImageFormat::PNG)),
            ImageFormat::JPEG => assert(spec_format_of_name("jpeg"@) == Some(ImageFormat::JPEG)),
            ImageFormat::GIF => assert(spec_format_of_name("gif"@) == Some(ImageFormat::GIF)),
            ImageFormat::BMP => assert(spec_format_of_name("bmp"@) == Some(ImageFormat::BMP)),
            ImageFormat::ICO => assert(spec_format_of_name("ico"@) == Some(ImageFormat::ICO)),
        }
    }
    assert forall|f: ImageFormat| #[trigger] spec_format_of_content_type(f.spec_content_type())
        == Some(f) by {
        match f {
            ImageFormat::PNG => assert(spec_format_of_content_type("image/png"@)
                == Some(ImageFormat::PNG)),
            ImageFormat::JPEG => assert(spec_format_of_content_type("image/jpeg"@)
                == Some(ImageFormat::JPEG)),
            ImageFormat::GIF => assert(spec_format_of_content_type("image/gif"@)
                == Some(ImageFormat::GIF)),
            ImageFormat::BMP => assert(spec_format_of_content_type("image/bmp"@)
                == Some(ImageFormat::BMP)),
            ImageFormat::ICO => assert(spec_format_of_content_type("image/ico"@)
                == Some(ImageFormat::ICO)),
        }
    }
}

} // verus!
