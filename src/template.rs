use vstd::prelude::*;

use crate::languages::FileType;

verus! {

/// The starter program written for a new file of each supported language.
pub open spec fn template_text(tag: FileType) -> Seq<char> {
    match tag {
        FileType::Py => "print(\"Hello Lion!\")"@,
        FileType::Rs => "fn main() {\n    println!(\"Hello Lion!\");\n}"@,
        FileType::Cpp => "#include <iostream>\n\nint main() {\n    std::cout << \"Hello, Lion!\" << std::endl;\n    return 0;\n}"@,
        FileType::C => "#include <stdio.h>\n\nint main() {\n    printf(\"Hello Lion!\");\n    return 0;\n}"@,
        FileType::Go => "package main\n\nimport \"fmt\"\n\nfunc main() {\n    fmt.Println(\"Hello Lion!\")\n}"@,
        FileType::Java => "public class Main {\n    public static void main(String[] args) {\n        System.out.println(\"Hello, Lion!\");\n    }\n}"@,
        FileType::Placeholder => Seq::empty(),
    }
}

/// The starter program for `tag`; there is none for an unknown file type.
pub fn template(tag: FileType) -> (r: String)
    requires
        tag != FileType::Placeholder,
    ensures
        r@ == template_text(tag),
{
    match tag {
        FileType::Py => String::from_str("print(\"Hello Lion!\")"),
        FileType::Rs => String::from_str("fn main() {\n    println!(\"Hello Lion!\");\n}"),
        FileType::Cpp => String::from_str(
            "#include <iostream>\n\nint main() {\n    std::cout << \"Hello, Lion!\" << std::endl;\n    return 0;\n}",
        ),
        FileType::C => String::from_str(
            "#include <stdio.h>\n\nint main() {\n    printf(\"Hello Lion!\");\n    return 0;\n}",
        ),
        FileType::Go => String::from_str(
            "package main\n\nimport \"fmt\"\n\nfunc main() {\n    fmt.Println(\"Hello Lion!\")\n}",
        ),
        FileType::Java => String::from_str(
            "public class Main {\n    public static void main(String[] args) {\n        System.out.println(\"Hello, Lion!\");\n    }\n}",
        ),
        FileType::Placeholder => String::new(),
    }
}

} // verus!
