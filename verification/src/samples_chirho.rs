//! Built-in sample content that the application shows when no SWORD
//! modules are installed: verses, commentary, lexicon entries, footnotes,
//! cross-references, Strong's entries, interlinear words, reading plans and
//! the verse of the day, and the small date and time formatters around them.

use vstd::prelude::*;
use vstd::string::StringExecFns;
use crate::models_chirho::{
    InterlinearWordChirho, InterlinearWordViewChirho, ReadingDayChirho, ReadingPlanChirho,
    StrongsEntryChirho,
};
use crate::text_chirho::{
    chars_of_chirho, contains_chirho, find_char_chirho, int_to_string_chirho,
    spec_contains_chirho, spec_first_field_chirho, spec_int_decimal_chirho,
    spec_lower_chirho, str_eq_chirho, string_from_chars_chirho, subrange_chirho,
};

verus! {

/// A list of (label, text) pairs by its contents.
pub open spec fn spec_pairs_view_chirho(v: Seq<(String, String)>) -> Seq<(Seq<char>, Seq<char>)> {
    v.map_values(|p: (String, String)| (p.0@, p.1@))
}

/// Every chapter has between 3 and 200 sample verses.
pub proof fn lemma_sample_verses_count_chirho(book: Seq<char>, chapter: i32)
    ensures
        3 <= spec_sample_verses_chirho(book, chapter).len() <= 200,
{
}

/// The sample verses of a chapter: (verse number, text) pairs.
pub open spec fn spec_sample_verses_chirho(book: Seq<char>, chapter: i32) -> Seq<(Seq<char>, Seq<char>)> {
    if book == "Genesis"@ && chapter == 1 {
        seq![("1"@, "In the beginning God created the heaven and the earth."@), ("2"@, "And the earth was without form, and void; and darkness was upon the face of the deep. And the Spirit of God moved upon the face of the waters."@), ("3"@, "And God said, Let there be light: and there was light."@), ("4"@, "And God saw the light, that it was good: and God divided the light from the darkness."@), ("5"@, "And God called the light Day, and the darkness he called Night. And the evening and the morning were the first day."@), ("6"@, "And God said, Let there be a firmament in the midst of the waters, and let it divide the waters from the waters."@), ("7"@, "And God made the firmament, and divided the waters which were under the firmament from the waters which were above the firmament: and it was so."@), ("8"@, "And God called the firmament Heaven. And the evening and the morning were the second day."@), ("9"@, "And God said, Let the waters under the heaven be gathered together unto one place, and let the dry land appear: and it was so."@), ("10"@, "And God called the dry land Earth; and the gathering together of the waters called he Seas: and God saw that it was good."@)]
    } else if book == "John"@ && chapter == 1 {
        seq![("1"@, "Ἐν ἀρχῇ ἦν ὁ λόγος, καὶ ὁ λόγος ἦν πρὸς τὸν θεόν, καὶ θεὸς ἦν ὁ λόγος."@), ("2"@, "οὗτος ἦν ἐν ἀρχῇ πρὸς τὸν θεόν."@), ("3"@, "πάντα δι᾽ αὐτοῦ ἐγένετο, καὶ χωρὶς αὐτοῦ ἐγένετο οὐδὲ ἕν ὃ γέγονεν."@), ("4"@, "ἐν αὐτῷ ζωὴ ἦν, καὶ ἡ ζωὴ ἦν τὸ φῶς τῶν ἀνθρώπων."@), ("5"@, "καὶ τὸ φῶς ἐν τῇ σκοτίᾳ φαίνει, καὶ ἡ σκοτία αὐτὸ οὐ κατέλαβεν."@)]
    } else if book == "John"@ && chapter == 3 {
        seq![("14"@, "And as Moses lifted up the serpent in the wilderness, even so must the Son of man be lifted up:"@), ("15"@, "That whosoever believeth in him should not perish, but have eternal life."@), ("16"@, "For God so loved the world, that he gave his only begotten Son, that whosoever believeth in him should not perish, but have everlasting life."@), ("17"@, "For God sent not his Son into the world to condemn the world; but that the world through him might be saved."@), ("18"@, "He that believeth on him is not condemned: but he that believeth not is condemned already, because he hath not believed in the name of the only begotten Son of God."@)]
    } else if book == "Psalms"@ && chapter == 23 {
        seq![("1"@, "יְהוָ֥ה רֹ֝עִ֗י לֹ֣א אֶחְסָֽר׃ The LORD is my shepherd; I shall not want."@), ("2"@, "בִּנְא֣וֹת דֶּ֭שֶׁא יַרְבִּיצֵ֑נִי עַל־מֵ֖י מְנֻח֣וֹת יְנַהֲלֵֽנִי׃ He maketh me to lie down in green pastures: he leadeth me beside the still waters."@), ("3"@, "נַפְשִׁ֥י יְשׁוֹבֵ֑ב יַֽנְחֵ֥נִי בְמַעְגְּלֵי־צֶ֝֗דֶק לְמַ֣עַן שְׁמֽוֹ׃ He restoreth my soul: he leadeth me in the paths of righteousness for his name's sake."@), ("4"@, "גַּ֤ם כִּֽי־אֵלֵ֨ךְ בְּגֵ֪יא צַלְמָ֡וֶת לֹא־אִ֘ירָ֤א רָ֗ע כִּי־אַתָּ֥ה עִמָּדִ֑י שִׁבְטְךָ֥ וּ֝מִשְׁעַנְתֶּ֗ךָ הֵ֣מָּה יְנַֽחֲמֻֽנִי׃ Yea, though I walk through the valley of the shadow of death, I will fear no evil: for thou art with me; thy rod and thy staff they comfort me."@), ("5"@, "תַּעֲרֹ֬ךְ לְפָנַ֨י ׀ שֻׁלְחָ֗ן נֶ֥גֶד צֹרְרָ֑י דִּשַּׁ֖נְתָּ בַשֶּׁ֥מֶן רֹ֝אשִׁ֗י כּוֹסִ֥י רְוָיָֽה׃ Thou preparest a table before me in the presence of mine enemies: thou anointest my head with oil; my cup runneth over."@), ("6"@, "אַ֤ךְ ׀ ט֤וֹב וָחֶ֣סֶד יִ֭רְדְּפוּנִי כָּל־יְמֵ֣י חַיָּ֑י וְשַׁבְתִּ֥י בְּבֵית־יְ֝הוָ֗ה לְאֹ֣רֶךְ יָמִֽים׃ Surely goodness and mercy shall follow me all the days of my life: and I will dwell in the house of the LORD for ever."@)]
    } else {
        seq![("1"@, "Sample verse for "@ + book + " chapter "@ + spec_int_decimal_chirho(chapter as int) + ". Install SWORD modules for actual Bible text."@), ("2"@, "Use installmgr_chirho to download Bible modules from CrossWire."@), ("3"@, "Modules will appear in your ~/.sword directory."@)]
    }
}

/// Sample verses for a chapter, used when no SWORD modules are installed.
pub fn get_sample_verses_chirho(book: &str, chapter: i32) -> (r: Vec<(String, String)>)
    ensures
        spec_pairs_view_chirho(r@) == spec_sample_verses_chirho(book@, chapter),
{
    let mut r: Vec<(String, String)> = Vec::new();
    if str_eq_chirho(book, "Genesis") && chapter == 1 {
        r.push((String::from_str("1"), String::from_str("In the beginning God created the heaven and the earth.")));
        r.push((String::from_str("2"), String::from_str("And the earth was without form, and void; and darkness was upon the face of the deep. And the Spirit of God moved upon the face of the waters.")));
        r.push((String::from_str("3"), String::from_str("And God said, Let there be light: and there was light.")));
        r.push((String::from_str("4"), String::from_str("And God saw the light, that it was good: and God divided the light from the darkness.")));
        r.push((String::from_str("5"), String::from_str("And God called the light Day, and the darkness he called Night. And the evening and the morning were the first day.")));
        r.push((String::from_str("6"), String::from_str("And God said, Let there be a firmament in the midst of the waters, and let it divide the waters from the waters.")));
        r.push((String::from_str("7"), String::from_str("And God made the firmament, and divided the waters which were under the firmament from the waters which were above the firmament: and it was so.")));
        r.push((String::from_str("8"), String::from_str("And God called the firmament Heaven. And the evening and the morning were the second day.")));
        r.push((String::from_str("9"), String::from_str("And God said, Let the waters under the heaven be gathered together unto one place, and let the dry land appear: and it was so.")));
        r.push((String::from_str("10"), String::from_str("And God called the dry land Earth; and the gathering together of the waters called he Seas: and God saw that it was good.")));
    } else if str_eq_chirho(book, "John") && chapter == 1 {
        r.push((String::from_str("1"), String::from_str("Ἐν ἀρχῇ ἦν ὁ λόγος, καὶ ὁ λόγος ἦν πρὸς τὸν θεόν, καὶ θεὸς ἦν ὁ λόγος.")));
        r.push((String::from_str("2"), String::from_str("οὗτος ἦν ἐν ἀρχῇ πρὸς τὸν θεόν.")));
        r.push((String::from_str("3"), String::from_str("πάντα δι᾽ αὐτοῦ ἐγένετο, καὶ χωρὶς αὐτοῦ ἐγένετο οὐδὲ ἕν ὃ γέγονεν.")));
        r.push((String::from_str("4"), String::from_str("ἐν αὐτῷ ζωὴ ἦν, καὶ ἡ ζωὴ ἦν τὸ φῶς τῶν ἀνθρώπων.")));
        r.push((String::from_str("5"), String::from_str("καὶ τὸ φῶς ἐν τῇ σκοτίᾳ φαίνει, καὶ ἡ σκοτία αὐτὸ οὐ κατέλαβεν.")));
    } else if str_eq_chirho(book, "John") && chapter == 3 {
        r.push((String::from_str("14"), String::from_str("And as Moses lifted up the serpent in the wilderness, even so must the Son of man be lifted up:")));
        r.push((String::from_str("15"), String::from_str("That whosoever believeth in him should not perish, but have eternal life.")));
        r.push((String::from_str("16"), String::from_str("For God so loved the world, that he gave his only begotten Son, that whosoever believeth in him should not perish, but have everlasting life.")));
        r.push((String::from_str("17"), String::from_str("For God sent not his Son into the world to condemn the world; but that the world through him might be saved.")));
        r.push((String::from_str("18"), String::from_str("He that believeth on him is not condemned: but he that believeth not is condemned already, because he hath not believed in the name of the only begotten Son of God.")));
    } else if str_eq_chirho(book, "Psalms") && chapter == 23 {
        r.push((String::from_str("1"), String::from_str("יְהוָ֥ה רֹ֝עִ֗י לֹ֣א אֶחְסָֽר׃ The LORD is my shepherd; I shall not want.")));
        r.push((String::from_str("2"), String::from_str("בִּנְא֣וֹת דֶּ֭שֶׁא יַרְבִּיצֵ֑נִי עַל־מֵ֖י מְנֻח֣וֹת יְנַהֲלֵֽנִי׃ He maketh me to lie down in green pastures: he leadeth me beside the still waters.")));
        r.push((String::from_str("3"), String::from_str("נַפְשִׁ֥י יְשׁוֹבֵ֑ב יַֽנְחֵ֥נִי בְמַעְגְּלֵי־צֶ֝֗דֶק לְמַ֣עַן שְׁמֽוֹ׃ He restoreth my soul: he leadeth me in the paths of righteousness for his name's sake.")));
        r.push((String::from_str("4"), String::from_str("גַּ֤ם כִּֽי־אֵלֵ֨ךְ בְּגֵ֪יא צַלְמָ֡וֶת לֹא־אִ֘ירָ֤א רָ֗ע כִּי־אַתָּ֥ה עִמָּדִ֑י שִׁבְטְךָ֥ וּ֝מִשְׁעַנְתֶּ֗ךָ הֵ֣מָּה יְנַֽחֲמֻֽנִי׃ Yea, though I walk through the valley of the shadow of death, I will fear no evil: for thou art with me; thy rod and thy staff they comfort me.")));
        r.push((String::from_str("5"), String::from_str("תַּעֲרֹ֬ךְ לְפָנַ֨י ׀ שֻׁלְחָ֗ן נֶ֥גֶד צֹרְרָ֑י דִּשַּׁ֖נְתָּ בַשֶּׁ֥מֶן רֹ֝אשִׁ֗י כּוֹסִ֥י רְוָיָֽה׃ Thou preparest a table before me in the presence of mine enemies: thou anointest my head with oil; my cup runneth over.")));
        r.push((String::from_str("6"), String::from_str("אַ֤ךְ ׀ ט֤וֹב וָחֶ֣סֶד יִ֭רְדְּפוּנִי כָּל־יְמֵ֣י חַיָּ֑י וְשַׁבְתִּ֥י בְּבֵית־יְ֝הוָ֗ה לְאֹ֣רֶךְ יָמִֽים׃ Surely goodness and mercy shall follow me all the days of my life: and I will dwell in the house of the LORD for ever.")));
    } else {
        let mut t = String::from_str("Sample verse for ");
        t.append(book);
        t.append(" chapter ");
        let n = int_to_string_chirho(chapter as i64);
        t.append(n.as_str());
        t.append(". Install SWORD modules for actual Bible text.");
        r.push((String::from_str("1"), t));
        r.push((String::from_str("2"), String::from_str("Use installmgr_chirho to download Bible modules from CrossWire.")));
        r.push((String::from_str("3"), String::from_str("Modules will appear in your ~/.sword directory.")));
    }
    assert(spec_pairs_view_chirho(r@) =~= spec_sample_verses_chirho(book@, chapter));
    r
}
/// The sample commentary on a verse and the commentary module it comes from.
pub open spec fn spec_sample_commentary_chirho(r: Seq<char>) -> (Seq<char>, Seq<char>) {
    if r == "Genesis 1:1"@ || r == "Genesis 1"@ {
        ("\"In the beginning\" - This phrase marks the absolute beginning of all created existence. \
            The Hebrew word 'reshiyth' (רֵאשִׁית) indicates the starting point of time itself.\n\n\
            \"God created\" - The Hebrew 'bara' (בָּרָא) is used exclusively of divine activity, \
            implying creation from nothing (ex nihilo). This verb never has a material object.\n\n\
            \"the heaven and the earth\" - A merism (figure of speech using extremes to indicate totality) \
            meaning 'everything' - the entire cosmos and all that is in it."@, "MHCC"@)
    } else if r == "John 3:16"@ || r == "John 3"@ {
        ("This verse is often called 'the gospel in miniature' as it summarizes the entire message \
            of salvation.\n\n\
            \"For God so loved\" - The Greek 'agape' (ἀγάπη) refers to unconditional, sacrificial love. \
            The word 'so' (Greek: houto) emphasizes the manner and intensity of God's love.\n\n\
            \"the world\" - Greek 'kosmos' (κόσμος) - not just the Jews, but all of humanity, \
            showing the universal scope of God's redemptive plan.\n\n\
            \"only begotten Son\" - Greek 'monogenes' (μονογενής) - meaning unique, one of a kind. \
            It emphasizes Jesus' unique relationship with the Father."@, "MHCC"@)
    } else if r == "Psalm 23:1"@ || r == "Psalm 23"@ || r == "Psalms 23:1"@ || r == "Psalms 23"@ {
        ("\"The LORD is my shepherd\" - David, himself a shepherd, uses this intimate metaphor \
            to describe his relationship with God.\n\n\
            The divine name YHWH (יְהוָה) emphasizes the covenant relationship. As shepherd, \
            God provides guidance, protection, and provision.\n\n\
            \"I shall not want\" - Complete trust that all needs will be met. Not a promise of \
            luxury, but of sufficiency in God's care."@, "MHCC"@)
    } else if r == "Romans 8:28"@ || r == "Romans 8"@ {
        ("\"All things work together for good\" - Not that all things ARE good, but that God \
            orchestrates them for His purposes.\n\n\
            \"to them that love God\" - The promise is conditional on relationship. Those who love \
            God experience His providential care.\n\n\
            \"called according to his purpose\" - Refers to God's sovereign election and \
            the unfolding of His redemptive plan for His people."@, "MHCC"@)
    } else {
        ("Commentary for "@ + r + " not found in sample data.\n\n\
                Install commentary modules (like Matthew Henry's Commentary, Gill's Exposition, \
                Barnes' Notes) to access verse-by-verse explanations."@, ""@)
    }
}

/// Sample commentary on a verse: the text and the module it is taken from.
pub fn get_sample_commentary_chirho(verse_ref: &str) -> (r: (String, String))
    ensures
        (r.0@, r.1@) == spec_sample_commentary_chirho(verse_ref@),
{
    if str_eq_chirho(verse_ref, "Genesis 1:1") || str_eq_chirho(verse_ref, "Genesis 1") {
        (String::from_str("\"In the beginning\" - This phrase marks the absolute beginning of all created existence. \
            The Hebrew word 'reshiyth' (רֵאשִׁית) indicates the starting point of time itself.\n\n\
            \"God created\" - The Hebrew 'bara' (בָּרָא) is used exclusively of divine activity, \
            implying creation from nothing (ex nihilo). This verb never has a material object.\n\n\
            \"the heaven and the earth\" - A merism (figure of speech using extremes to indicate totality) \
            meaning 'everything' - the entire cosmos and all that is in it."), String::from_str("MHCC"))
    } else if str_eq_chirho(verse_ref, "John 3:16") || str_eq_chirho(verse_ref, "John 3") {
        (String::from_str("This verse is often called 'the gospel in miniature' as it summarizes the entire message \
            of salvation.\n\n\
            \"For God so loved\" - The Greek 'agape' (ἀγάπη) refers to unconditional, sacrificial love. \
            The word 'so' (Greek: houto) emphasizes the manner and intensity of God's love.\n\n\
            \"the world\" - Greek 'kosmos' (κόσμος) - not just the Jews, but all of humanity, \
            showing the universal scope of God's redemptive plan.\n\n\
            \"only begotten Son\" - Greek 'monogenes' (μονογενής) - meaning unique, one of a kind. \
            It emphasizes Jesus' unique relationship with the Father."), String::from_str("MHCC"))
    } else if str_eq_chirho(verse_ref, "Psalm 23:1") || str_eq_chirho(verse_ref, "Psalm 23") || str_eq_chirho(verse_ref, "Psalms 23:1") || str_eq_chirho(verse_ref, "Psalms 23") {
        (String::from_str("\"The LORD is my shepherd\" - David, himself a shepherd, uses this intimate metaphor \
            to describe his relationship with God.\n\n\
            The divine name YHWH (יְהוָה) emphasizes the covenant relationship. As shepherd, \
            God provides guidance, protection, and provision.\n\n\
            \"I shall not want\" - Complete trust that all needs will be met. Not a promise of \
            luxury, but of sufficiency in God's care."), String::from_str("MHCC"))
    } else if str_eq_chirho(verse_ref, "Romans 8:28") || str_eq_chirho(verse_ref, "Romans 8") {
        (String::from_str("\"All things work together for good\" - Not that all things ARE good, but that God \
            orchestrates them for His purposes.\n\n\
            \"to them that love God\" - The promise is conditional on relationship. Those who love \
            God experience His providential care.\n\n\
            \"called according to his purpose\" - Refers to God's sovereign election and \
            the unfolding of His redemptive plan for His people."), String::from_str("MHCC"))
    } else {
        let mut t = String::from_str("Commentary for ");
        t.append(verse_ref);
        t.append(" not found in sample data.\n\n\
                Install commentary modules (like Matthew Henry's Commentary, Gill's Exposition, \
                Barnes' Notes) to access verse-by-verse explanations.");
        (t, String::from_str(""))
    }
}

/// The sample lexicon entry (title, text) for a query, looked up by its
/// lower-case form.
pub open spec fn spec_sample_lexicon_chirho(q: Seq<char>) -> (Seq<char>, Seq<char>) {
    let l = spec_lower_chirho(q);
    if l == "love"@ || l == "agape"@ || l == "ἀγάπη"@ {
        ("ἀγάπη (agape)"@, "Greek: ἀγάπη (agape) [ag-ah'-pay]\n\
            Strong's: G26\n\n\
            Definition: Love, benevolence, good will, affection.\n\n\
            Usage in NT: Used 116 times\n\n\
            Meaning:\n\
            1. Brotherly love, affection, good will\n\
            2. Love feasts (meals held by early Christians)\n\
            3. The love of God or Christ for humanity\n\
            4. The love of Christians for God and fellow believers\n\n\
            Unlike 'philos' (friendship love) or 'eros' (romantic love), agape refers to \
            unconditional, sacrificial love that seeks the highest good of the beloved."@)
    } else if l == "god"@ || l == "theos"@ || l == "θεός"@ {
        ("θεός (theos)"@, "Greek: θεός (theos) [theh'-os]\n\
            Strong's: G2316\n\n\
            Definition: A god, deity; the supreme Divinity; God.\n\n\
            Usage in NT: Used 1343 times\n\n\
            Meaning:\n\
            1. God, the Creator and supreme ruler of the universe\n\
            2. Any deity or god (in polytheistic context)\n\
            3. One who possesses divine nature\n\n\
            In the New Testament, theos is used predominantly for the God of Israel, \
            the Father of Jesus Christ."@)
    } else if l == "word"@ || l == "logos"@ || l == "λόγος"@ {
        ("λόγος (logos)"@, "Greek: λόγος (logos) [log'-os]\n\
            Strong's: G3056\n\n\
            Definition: Word, reason, account, discourse.\n\n\
            Usage in NT: Used 330 times\n\n\
            Meaning:\n\
            1. A word (as embodying an idea)\n\
            2. A saying, statement, declaration\n\
            3. Discourse, speech, teaching\n\
            4. Reason, the mental faculty of reasoning\n\
            5. The Word (Christ as the living expression of God)\n\n\
            In John 1:1, logos is used theologically to identify Christ as the \
            pre-existent Word of God, through whom all things were created."@)
    } else if l == "faith"@ || l == "pistis"@ || l == "πίστις"@ {
        ("πίστις (pistis)"@, "Greek: πίστις (pistis) [pis'-tis]\n\
            Strong's: G4102\n\n\
            Definition: Faith, belief, trust, confidence.\n\n\
            Usage in NT: Used 244 times\n\n\
            Meaning:\n\
            1. Conviction of the truth, belief\n\
            2. Trust, confidence, reliance\n\
            3. The content of faith (what is believed)\n\
            4. Faithfulness, reliability, trustworthiness\n\n\
            In Paul's writings, pistis is central to salvation - it is the means by which \
            humans receive God's grace (Ephesians 2:8-9)."@)
    } else {
        (q, "Entry '"@ + q + "' not found in sample lexicon data.\n\n\
                Install lexicon modules (like Strong's Dictionary, Thayer's Greek Lexicon, \
                BDB Hebrew Lexicon) to look up word definitions.\n\n\
                You can also search by Strong's number (e.g., 'G26' or 'H430')."@)
    }
}

/// Sample lexicon entry for a word: its title and text. The query is
/// compared in lower case with the known words and their transliterations.
pub fn get_sample_lexicon_entry_chirho(query: &str) -> (r: (String, String))
    ensures
        (r.0@, r.1@) == spec_sample_lexicon_chirho(query@),
{
    let lower = crate::text_chirho::to_lowercase_chirho(query);
    let l = lower.as_str();
    if str_eq_chirho(l, "love") || str_eq_chirho(l, "agape") || str_eq_chirho(l, "ἀγάπη") {
        (String::from_str("ἀγάπη (agape)"), String::from_str("Greek: ἀγάπη (agape) [ag-ah'-pay]\n\
            Strong's: G26\n\n\
            Definition: Love, benevolence, good will, affection.\n\n\
            Usage in NT: Used 116 times\n\n\
            Meaning:\n\
            1. Brotherly love, affection, good will\n\
            2. Love feasts (meals held by early Christians)\n\
            3. The love of God or Christ for humanity\n\
            4. The love of Christians for God and fellow believers\n\n\
            Unlike 'philos' (friendship love) or 'eros' (romantic love), agape refers to \
            unconditional, sacrificial love that seeks the highest good of the beloved."))
    } else if str_eq_chirho(l, "god") || str_eq_chirho(l, "theos") || str_eq_chirho(l, "θεός") {
        (String::from_str("θεός (theos)"), String::from_str("Greek: θεός (theos) [theh'-os]\n\
            Strong's: G2316\n\n\
            Definition: A god, deity; the supreme Divinity; God.\n\n\
            Usage in NT: Used 1343 times\n\n\
            Meaning:\n\
            1. God, the Creator and supreme ruler of the universe\n\
            2. Any deity or god (in polytheistic context)\n\
            3. One who possesses divine nature\n\n\
            In the New Testament, theos is used predominantly for the God of Israel, \
            the Father of Jesus Christ."))
    } else if str_eq_chirho(l, "word") || str_eq_chirho(l, "logos") || str_eq_chirho(l, "λόγος") {
        (String::from_str("λόγος (logos)"), String::from_str("Greek: λόγος (logos) [log'-os]\n\
            Strong's: G3056\n\n\
            Definition: Word, reason, account, discourse.\n\n\
            Usage in NT: Used 330 times\n\n\
            Meaning:\n\
            1. A word (as embodying an idea)\n\
            2. A saying, statement, declaration\n\
            3. Discourse, speech, teaching\n\
            4. Reason, the mental faculty of reasoning\n\
            5. The Word (Christ as the living expression of God)\n\n\
            In John 1:1, logos is used theologically to identify Christ as the \
            pre-existent Word of God, through whom all things were created."))
    } else if str_eq_chirho(l, "faith") || str_eq_chirho(l, "pistis") || str_eq_chirho(l, "πίστις") {
        (String::from_str("πίστις (pistis)"), String::from_str("Greek: πίστις (pistis) [pis'-tis]\n\
            Strong's: G4102\n\n\
            Definition: Faith, belief, trust, confidence.\n\n\
            Usage in NT: Used 244 times\n\n\
            Meaning:\n\
            1. Conviction of the truth, belief\n\
            2. Trust, confidence, reliance\n\
            3. The content of faith (what is believed)\n\
            4. Faithfulness, reliability, trustworthiness\n\n\
            In Paul's writings, pistis is central to salvation - it is the means by which \
            humans receive God's grace (Ephesians 2:8-9)."))
    } else {
        let mut t = String::from_str("Entry '");
        t.append(query);
        t.append("' not found in sample lexicon data.\n\n\
                Install lexicon modules (like Strong's Dictionary, Thayer's Greek Lexicon, \
                BDB Hebrew Lexicon) to look up word definitions.\n\n\
                You can also search by Strong's number (e.g., 'G26' or 'H430').");
        (String::from_str(query), t)
    }
}

/// The sample cross-references of a verse.
pub open spec fn spec_sample_cross_refs_chirho(r: Seq<char>) -> Seq<Seq<char>> {
    if r == "Genesis 1:1"@ {
        seq!["John 1:1-3"@, "Hebrews 11:3"@, "Psalm 33:6"@, "Isaiah 40:26"@, "Colossians 1:16-17"@]
    } else if r == "John 3:16"@ {
        seq!["Romans 5:8"@, "1 John 4:9-10"@, "Romans 8:32"@, "John 1:14"@, "John 3:36"@, "1 John 5:11"@, "Ephesians 2:4-5"@, "Isaiah 9:6"@]
    } else if r == "Romans 8:28"@ {
        seq!["Romans 8:35-39"@, "Jeremiah 29:11"@, "Genesis 50:20"@, "Philippians 1:6"@]
    } else if r == "Psalm 23:1"@ {
        seq!["Isaiah 40:11"@, "Ezekiel 34:11-12"@, "John 10:11"@, "Hebrews 13:20"@, "1 Peter 2:25"@]
    } else {
        seq!["Install TSK module for cross-references"@]
    }
}

/// Sample cross-references for a verse.
pub fn get_sample_cross_refs_chirho(verse_ref: &str) -> (r: Vec<String>)
    ensures
        r@.map_values(|s: String| s@) == spec_sample_cross_refs_chirho(verse_ref@),
{
    let mut r: Vec<String> = Vec::new();
    if str_eq_chirho(verse_ref, "Genesis 1:1") {
        r.push(String::from_str("John 1:1-3"));
        r.push(String::from_str("Hebrews 11:3"));
        r.push(String::from_str("Psalm 33:6"));
        r.push(String::from_str("Isaiah 40:26"));
        r.push(String::from_str("Colossians 1:16-17"));
    } else if str_eq_chirho(verse_ref, "John 3:16") {
        r.push(String::from_str("Romans 5:8"));
        r.push(String::from_str("1 John 4:9-10"));
        r.push(String::from_str("Romans 8:32"));
        r.push(String::from_str("John 1:14"));
        r.push(String::from_str("John 3:36"));
        r.push(String::from_str("1 John 5:11"));
        r.push(String::from_str("Ephesians 2:4-5"));
        r.push(String::from_str("Isaiah 9:6"));
    } else if str_eq_chirho(verse_ref, "Romans 8:28") {
        r.push(String::from_str("Romans 8:35-39"));
        r.push(String::from_str("Jeremiah 29:11"));
        r.push(String::from_str("Genesis 50:20"));
        r.push(String::from_str("Philippians 1:6"));
    } else if str_eq_chirho(verse_ref, "Psalm 23:1") {
        r.push(String::from_str("Isaiah 40:11"));
        r.push(String::from_str("Ezekiel 34:11-12"));
        r.push(String::from_str("John 10:11"));
        r.push(String::from_str("Hebrews 13:20"));
        r.push(String::from_str("1 Peter 2:25"));
    } else {
        r.push(String::from_str("Install TSK module for cross-references"));
    }
    assert(r@.map_values(|s: String| s@) =~= spec_sample_cross_refs_chirho(verse_ref@));
    r
}

/// The sample footnote (text, kind) for a verse and footnote marker.
pub open spec fn spec_sample_footnote_chirho(r: Seq<char>, m: Seq<char>) -> (Seq<char>, Seq<char>) {
    if r == "Genesis 1:1"@ && m == "a"@ {
        ("Or 'When God began to create' or 'In the beginning of God's creating'"@, "alternative"@)
    } else if r == "Genesis 1:2"@ && m == "a"@ {
        ("Hebrew ruach, meaning wind, breath, or spirit"@, "translator"@)
    } else if r == "John 3:16"@ && m == "a"@ {
        ("Or 'only unique Son'; Greek monogenēs (μονογενής)"@, "textual"@)
    } else if r == "John 1:1"@ && m == "a"@ {
        ("Greek Logos (λόγος), meaning Word, reason, or divine expression"@, "translator"@)
    } else if r == "Matthew 1:23"@ && m == "a"@ {
        ("Hebrew 'Immanuel' means 'God with us'"@, "explanation"@)
    } else {
        ("Footnote "@ + m + " for "@ + r, "translator"@)
    }
}

/// Sample footnote for a verse and marker: its text and its kind.
pub fn get_sample_footnote_chirho(verse_ref: &str, marker: &str) -> (r: (String, String))
    ensures
        (r.0@, r.1@) == spec_sample_footnote_chirho(verse_ref@, marker@),
{
    if str_eq_chirho(verse_ref, "Genesis 1:1") && str_eq_chirho(marker, "a") {
        (String::from_str("Or 'When God began to create' or 'In the beginning of God's creating'"), String::from_str("alternative"))
    } else if str_eq_chirho(verse_ref, "Genesis 1:2") && str_eq_chirho(marker, "a") {
        (String::from_str("Hebrew ruach, meaning wind, breath, or spirit"), String::from_str("translator"))
    } else if str_eq_chirho(verse_ref, "John 3:16") && str_eq_chirho(marker, "a") {
        (String::from_str("Or 'only unique Son'; Greek monogenēs (μονογενής)"), String::from_str("textual"))
    } else if str_eq_chirho(verse_ref, "John 1:1") && str_eq_chirho(marker, "a") {
        (String::from_str("Greek Logos (λόγος), meaning Word, reason, or divine expression"), String::from_str("translator"))
    } else if str_eq_chirho(verse_ref, "Matthew 1:23") && str_eq_chirho(marker, "a") {
        (String::from_str("Hebrew 'Immanuel' means 'God with us'"), String::from_str("explanation"))
    } else {
        let mut t = String::from_str("Footnote ");
        t.append(marker);
        t.append(" for ");
        t.append(verse_ref);
        (t, String::from_str("translator"))
    }
}
/// The sample Strong's data for a number: lemma, transliteration,
/// pronunciation, definition, usage and number of occurrences.
pub open spec fn spec_strongs_fields_chirho(n: Seq<char>) -> (Seq<char>, Seq<char>, Seq<char>, Seq<char>, Seq<char>, i32) {
    if n == "H1"@ {
        ("אָב"@, "av"@, "awb"@, "Father, ancestor, originator, patron"@, "father, ancestor, forefather"@, 1212i32)
    } else if n == "H430"@ {
        ("אֱלֹהִים"@, "elohim"@, "el-o-heem'"@, "God, gods, judges, mighty ones"@, "Used of the true God, false gods, and supernatural beings"@, 2606i32)
    } else if n == "H3068"@ {
        ("יְהוָה"@, "Yᵉhōvâh"@, "yeh-ho-vaw'"@, "The LORD, the proper name of the God of Israel"@, "The tetragrammaton, the covenant name of God"@, 6519i32)
    } else if n == "H7225"@ {
        ("רֵאשִׁית"@, "reshiyth"@, "ray-sheeth'"@, "Beginning, first, chief"@, "beginning, first, firstfruits, best"@, 51i32)
    } else if n == "H776"@ {
        ("אֶרֶץ"@, "erets"@, "eh'-rets"@, "Earth, land, ground, country"@, "earth, land, territory, country, ground"@, 2504i32)
    } else if n == "H8064"@ {
        ("שָׁמַיִם"@, "shamayim"@, "shaw-mah'-yim"@, "Heavens, sky"@, "heaven, heavens, sky, visible heavens"@, 421i32)
    } else if n == "G1"@ {
        ("Α"@, "alpha"@, "al'-fah"@, "Alpha, the first letter of the Greek alphabet"@, "Used symbolically for 'first' or 'beginning'"@, 4i32)
    } else if n == "G26"@ {
        ("ἀγάπη"@, "agape"@, "ag-ah'-pay"@, "Love, affection, benevolence"@, "love, benevolence, good will, esteem; God's love"@, 116i32)
    } else if n == "G2316"@ {
        ("θεός"@, "theos"@, "theh'-os"@, "God, a deity"@, "a god, deity, the supreme Divinity; God"@, 1343i32)
    } else if n == "G2424"@ {
        ("Ἰησοῦς"@, "Iesous"@, "ee-ay-sooce'"@, "Jesus, Joshua"@, "Jesus, the Son of God; Joshua"@, 975i32)
    } else if n == "G3056"@ {
        ("λόγος"@, "logos"@, "log'-os"@, "Word, reason, account"@, "word, saying, account, matter; the Word (Christ)"@, 330i32)
    } else if n == "G4102"@ {
        ("πίστις"@, "pistis"@, "pis'-tis"@, "Faith, belief, trust, confidence"@, "faith, belief, trust, confidence, fidelity"@, 244i32)
    } else if n == "G5547"@ {
        ("Χριστός"@, "Christos"@, "khris-tos'"@, "Christ, anointed one, Messiah"@, "Christ, the Anointed One, the Messiah"@, 569i32)
    } else {
        (""@, ""@, ""@, "Strong's number not found in sample data"@, "Install a lexicon module for full definitions"@, 0i32)
    }
}

fn strongs_fields_chirho(n: &str) -> (r: (&'static str, &'static str, &'static str, &'static str, &'static str, i32))
    ensures
        (r.0@, r.1@, r.2@, r.3@, r.4@, r.5) == spec_strongs_fields_chirho(n@),
{
    if str_eq_chirho(n, "H1") {
        ("אָב", "av", "awb", "Father, ancestor, originator, patron", "father, ancestor, forefather", 1212)
    } else if str_eq_chirho(n, "H430") {
        ("אֱלֹהִים", "elohim", "el-o-heem'", "God, gods, judges, mighty ones", "Used of the true God, false gods, and supernatural beings", 2606)
    } else if str_eq_chirho(n, "H3068") {
        ("יְהוָה", "Yᵉhōvâh", "yeh-ho-vaw'", "The LORD, the proper name of the God of Israel", "The tetragrammaton, the covenant name of God", 6519)
    } else if str_eq_chirho(n, "H7225") {
        ("רֵאשִׁית", "reshiyth", "ray-sheeth'", "Beginning, first, chief", "beginning, first, firstfruits, best", 51)
    } else if str_eq_chirho(n, "H776") {
        ("אֶרֶץ", "erets", "eh'-rets", "Earth, land, ground, country", "earth, land, territory, country, ground", 2504)
    } else if str_eq_chirho(n, "H8064") {
        ("שָׁמַיִם", "shamayim", "shaw-mah'-yim", "Heavens, sky", "heaven, heavens, sky, visible heavens", 421)
    } else if str_eq_chirho(n, "G1") {
        ("Α", "alpha", "al'-fah", "Alpha, the first letter of the Greek alphabet", "Used symbolically for 'first' or 'beginning'", 4)
    } else if str_eq_chirho(n, "G26") {
        ("ἀγάπη", "agape", "ag-ah'-pay", "Love, affection, benevolence", "love, benevolence, good will, esteem; God's love", 116)
    } else if str_eq_chirho(n, "G2316") {
        ("θεός", "theos", "theh'-os", "God, a deity", "a god, deity, the supreme Divinity; God", 1343)
    } else if str_eq_chirho(n, "G2424") {
        ("Ἰησοῦς", "Iesous", "ee-ay-sooce'", "Jesus, Joshua", "Jesus, the Son of God; Joshua", 975)
    } else if str_eq_chirho(n, "G3056") {
        ("λόγος", "logos", "log'-os", "Word, reason, account", "word, saying, account, matter; the Word (Christ)", 330)
    } else if str_eq_chirho(n, "G4102") {
        ("πίστις", "pistis", "pis'-tis", "Faith, belief, trust, confidence", "faith, belief, trust, confidence, fidelity", 244)
    } else if str_eq_chirho(n, "G5547") {
        ("Χριστός", "Christos", "khris-tos'", "Christ, anointed one, Messiah", "Christ, the Anointed One, the Messiah", 569)
    } else {
        ("", "", "", "Strong's number not found in sample data", "Install a lexicon module for full definitions", 0)
    }
}

/// Looks up a Strong's number (such as "H430" or "G26") in the sample data.
/// A number starting with `H` is Hebrew; unknown numbers get a "not found"
/// definition.
pub fn get_strongs_definition_chirho(number: &str) -> (r: StrongsEntryChirho)
    ensures
        r.number_chirho@ == number@,
        r.is_hebrew_chirho == (number@.len() > 0 && number@[0] == 'H'),
        (r.lemma_chirho@, r.transliteration_chirho@, r.pronunciation_chirho@, r.definition_chirho@,
            r.usage_chirho@, r.occurrences_chirho) == spec_strongs_fields_chirho(number@),
{
    let cv = chars_of_chirho(number);
    let is_hebrew = cv.len() > 0 && cv[0] == 'H';
    let f = strongs_fields_chirho(number);
    StrongsEntryChirho {
        number_chirho: String::from_str(number),
        is_hebrew_chirho: is_hebrew,
        lemma_chirho: String::from_str(f.0),
        transliteration_chirho: String::from_str(f.1),
        pronunciation_chirho: String::from_str(f.2),
        definition_chirho: String::from_str(f.3),
        usage_chirho: String::from_str(f.4),
        occurrences_chirho: f.5,
    }
}

/// The built-in reading plans: id, name, description, kind and length in
/// days. Each starts inactive, on day 1, with no progress.
pub open spec fn spec_builtin_plans_chirho() -> Seq<(i32, Seq<char>, Seq<char>, Seq<char>, i32)> {
    seq![(1i32, "Bible in a Year"@, "Read through the entire Bible in 365 days"@, "daily"@, 365i32), (2i32, "New Testament (90 Days)"@, "Read the New Testament in 90 days"@, "daily"@, 90i32), (3i32, "Psalms & Proverbs (30 Days)"@, "Daily wisdom from Psalms and Proverbs"@, "daily"@, 30i32), (4i32, "Gospels (30 Days)"@, "Walk with Jesus through the four Gospels"@, "daily"@, 30i32), (5i32, "Chronological Bible"@, "Read the Bible in historical order"@, "chronological"@, 365i32)]
}

/// The contents of a reading plan record, as compared with the built-in table.
pub open spec fn spec_plan_key_chirho(p: ReadingPlanChirho) -> (i32, Seq<char>, Seq<char>, Seq<char>, i32) {
    (p.id_chirho, p.name_chirho@, p.description_chirho@, p.plan_type_chirho@, p.total_days_chirho)
}

/// The built-in Bible reading plans.
pub fn get_builtin_reading_plans_chirho() -> (r: Vec<ReadingPlanChirho>)
    ensures
        r@.map_values(|p: ReadingPlanChirho| spec_plan_key_chirho(p)) == spec_builtin_plans_chirho(),
        forall|i: int| 0 <= i < r@.len() ==> (#[trigger] r@[i]).current_day_chirho == 1 && !r@[i].is_active_chirho && r@[i].progress_percent_chirho == 0,
{
    let mut r: Vec<ReadingPlanChirho> = Vec::new();
    r.push(ReadingPlanChirho { id_chirho: 1, name_chirho: String::from_str("Bible in a Year"), description_chirho: String::from_str("Read through the entire Bible in 365 days"), plan_type_chirho: String::from_str("daily"), total_days_chirho: 365, current_day_chirho: 1, is_active_chirho: false, progress_percent_chirho: 0 });
    r.push(ReadingPlanChirho { id_chirho: 2, name_chirho: String::from_str("New Testament (90 Days)"), description_chirho: String::from_str("Read the New Testament in 90 days"), plan_type_chirho: String::from_str("daily"), total_days_chirho: 90, current_day_chirho: 1, is_active_chirho: false, progress_percent_chirho: 0 });
    r.push(ReadingPlanChirho { id_chirho: 3, name_chirho: String::from_str("Psalms & Proverbs (30 Days)"), description_chirho: String::from_str("Daily wisdom from Psalms and Proverbs"), plan_type_chirho: String::from_str("daily"), total_days_chirho: 30, current_day_chirho: 1, is_active_chirho: false, progress_percent_chirho: 0 });
    r.push(ReadingPlanChirho { id_chirho: 4, name_chirho: String::from_str("Gospels (30 Days)"), description_chirho: String::from_str("Walk with Jesus through the four Gospels"), plan_type_chirho: String::from_str("daily"), total_days_chirho: 30, current_day_chirho: 1, is_active_chirho: false, progress_percent_chirho: 0 });
    r.push(ReadingPlanChirho { id_chirho: 5, name_chirho: String::from_str("Chronological Bible"), description_chirho: String::from_str("Read the Bible in historical order"), plan_type_chirho: String::from_str("chronological"), total_days_chirho: 365, current_day_chirho: 1, is_active_chirho: false, progress_percent_chirho: 0 });
    assert(r@.map_values(|p: ReadingPlanChirho| spec_plan_key_chirho(p)) =~= spec_builtin_plans_chirho());
    r
}

/// The passage read on day `day` of the year: the passages rotate weekly.
pub open spec fn spec_daily_readings_chirho(day: u32) -> Seq<char> {
    if day % 7 == 0 {
        "Genesis 1-3"@
    } else if day % 7 == 1 {
        "Psalm 23, Proverbs 1"@
    } else if day % 7 == 2 {
        "Matthew 5-7"@
    } else if day % 7 == 3 {
        "John 1-3"@
    } else if day % 7 == 4 {
        "Romans 8, 12"@
    } else if day % 7 == 5 {
        "Isaiah 40, 53"@
    } else {
        "Psalm 119:1-48"@
    }
}

fn daily_readings_chirho(day: u32) -> (r: &'static str)
    ensures
        r@ == spec_daily_readings_chirho(day),
{
    let m = day % 7;
    if m == 0 {
        "Genesis 1-3"
    } else if m == 1 {
        "Psalm 23, Proverbs 1"
    } else if m == 2 {
        "Matthew 5-7"
    } else if m == 3 {
        "John 1-3"
    } else if m == 4 {
        "Romans 8, 12"
    } else if m == 5 {
        "Isaiah 40, 53"
    } else {
        "Psalm 119:1-48"
    }
}

/// The reading of the day with the given day of the year (1 for January
/// 1st).
pub fn reading_for_day_chirho(day_of_year: u32) -> (r: ReadingDayChirho)
    ensures
        r.day_number_chirho == day_of_year as i32,
        r.readings_chirho@ == spec_daily_readings_chirho(day_of_year),
        !r.is_completed_chirho,
        r.is_today_chirho,
{
    ReadingDayChirho {
        day_number_chirho: day_of_year as i32,
        readings_chirho: String::from_str(daily_readings_chirho(day_of_year)),
        is_completed_chirho: false,
        is_today_chirho: true,
    }
}

/// Today's day of the year in local time (`chrono::Local::now` and
/// `Datelike::ordinal`); chrono documents it as 1 to 366. It depends on the
/// clock, so nothing else is stated of it.
#[verifier::external_body]
fn local_day_of_year_chirho() -> (r: u32)
    ensures
        1 <= r <= 366,
{
    chrono::Datelike::ordinal(&chrono::Local::now())
}

/// Today's reading (see `reading_for_day_chirho`).
pub fn get_todays_reading_chirho() -> (r: ReadingDayChirho)
    ensures
        1 <= r.day_number_chirho <= 366,
        !r.is_completed_chirho,
        r.is_today_chirho,
{
    reading_for_day_chirho(local_day_of_year_chirho())
}

/// The date part of a "YYYY-MM-DD HH:MM:SS" timestamp: everything before the
/// first space.
pub fn format_timestamp_chirho(timestamp: &str) -> (r: String)
    ensures
        r@ == spec_first_field_chirho(timestamp@, ' '),
{
    let v = chars_of_chirho(timestamp);
    let k = find_char_chirho(&v, ' ', 0);
    let f = subrange_chirho(&v, 0, k);
    string_from_chars_chirho(&f)
}

/// The English name of month `m` (0 is January).
pub open spec fn spec_month_name_chirho(m: int) -> Seq<char> {
    if m == 1 {
        "February"@
    } else if m == 2 {
        "March"@
    } else if m == 3 {
        "April"@
    } else if m == 4 {
        "May"@
    } else if m == 5 {
        "June"@
    } else if m == 6 {
        "July"@
    } else if m == 7 {
        "August"@
    } else if m == 8 {
        "September"@
    } else if m == 9 {
        "October"@
    } else if m == 10 {
        "November"@
    } else if m == 11 {
        "December"@
    } else {
        "January"@
    }
}

/// The number of days of month `m` in a year of 365 days.
pub open spec fn spec_month_days_chirho(m: int) -> int {
    if m == 1 {
        28
    } else if m == 3 || m == 5 || m == 8 || m == 10 {
        30
    } else {
        31
    }
}

/// Walks day `day` of the year (counting January 1st as day 0) through the
/// months from month `m` on: the month it falls in (or 12 when it falls past
/// December) and its index within that month, from 0.
pub open spec fn spec_month_of_chirho(day: int, m: int) -> (int, int)
    decreases 12 - m,
{
    if m >= 12 || m < 0 {
        (12, day)
    } else if day < spec_month_days_chirho(m) {
        (m, day)
    } else {
        spec_month_of_chirho(day - spec_month_days_chirho(m), m + 1)
    }
}

/// An approximate calendar date for a number of days since January 1st, 1970,
/// counting every year as 365 days: "Month D, YYYY", the day of the month
/// counted from 1 (day 0 is January 1st, day 31 February 1st).
pub open spec fn spec_format_date_chirho(days: u32) -> Seq<char> {
    let year = 1970 + days / 365;
    let md = spec_month_of_chirho((days % 365) as int, 0);
    spec_month_name_chirho(md.0) + " "@ + spec_int_decimal_chirho(md.1 + 1) + ", "@
        + spec_int_decimal_chirho(year)
}

fn month_name_chirho(m: u32) -> (r: &'static str)
    ensures
        r@ == spec_month_name_chirho(m as int),
{
    if m == 1 {
        "February"
    } else if m == 2 {
        "March"
    } else if m == 3 {
        "April"
    } else if m == 4 {
        "May"
    } else if m == 5 {
        "June"
    } else if m == 6 {
        "July"
    } else if m == 7 {
        "August"
    } else if m == 8 {
        "September"
    } else if m == 9 {
        "October"
    } else if m == 10 {
        "November"
    } else if m == 11 {
        "December"
    } else {
        "January"
    }
}

fn month_days_chirho(m: u32) -> (r: u32)
    ensures
        r == spec_month_days_chirho(m as int),
{
    if m == 1 {
        28
    } else if m == 3 || m == 5 || m == 8 || m == 10 {
        30
    } else {
        31
    }
}

/// Formats a number of days since the Unix epoch as an approximate date
/// ("Month D, YYYY"), counting every year as 365 days.
pub fn format_date_chirho(days_since_epoch: u32) -> (r: String)
    ensures
        r@ == spec_format_date_chirho(days_since_epoch),
{
    let years = days_since_epoch / 365;
    let remaining = days_since_epoch % 365;
    let year = 1970 + years;
    let mut day: u32 = remaining;
    let mut m: u32 = 0;
    while m < 12 && day >= month_days_chirho(m)
        invariant
            m <= 12,
            day <= remaining,
            remaining < 365,
            spec_month_of_chirho(remaining as int, 0) == spec_month_of_chirho(day as int, m as int),
        decreases 12 - m,
    {
        day = day - month_days_chirho(m);
        m = m + 1;
    }
    let shown: u32 = day + 1;
    let mut t = String::from_str(month_name_chirho(m));
    t.append(" ");
    let ds = int_to_string_chirho(shown as i64);
    t.append(ds.as_str());
    t.append(", ");
    let ys = int_to_string_chirho(year as i64);
    t.append(ys.as_str());
    t
}

/// Number of curated verses of the day.
pub const VERSE_OF_THE_DAY_COUNT_CHIRHO: u64 = 31;

/// The `i`-th curated verse of the day: (reference, text).
pub open spec fn spec_votd_entry_chirho(i: int) -> (Seq<char>, Seq<char>) {
    if i == 0 {
        ("John 3:16"@, "For God so loved the world, that he gave his only begotten Son, that whosoever believeth in him should not perish, but have everlasting life."@)
    } else if i == 1 {
        ("Psalm 23:1"@, "The LORD is my shepherd; I shall not want."@)
    } else if i == 2 {
        ("Jeremiah 29:11"@, "For I know the thoughts that I think toward you, saith the LORD, thoughts of peace, and not of evil, to give you an expected end."@)
    } else if i == 3 {
        ("Romans 8:28"@, "And we know that all things work together for good to them that love God, to them who are the called according to his purpose."@)
    } else if i == 4 {
        ("Philippians 4:13"@, "I can do all things through Christ which strengtheneth me."@)
    } else if i == 5 {
        ("Proverbs 3:5-6"@, "Trust in the LORD with all thine heart; and lean not unto thine own understanding. In all thy ways acknowledge him, and he shall direct thy paths."@)
    } else if i == 6 {
        ("Isaiah 40:31"@, "But they that wait upon the LORD shall renew their strength; they shall mount up with wings as eagles; they shall run, and not be weary; and they shall walk, and not faint."@)
    } else if i == 7 {
        ("Psalm 46:1"@, "God is our refuge and strength, a very present help in trouble."@)
    } else if i == 8 {
        ("Romans 12:2"@, "And be not conformed to this world: but be ye transformed by the renewing of your mind, that ye may prove what is that good, and acceptable, and perfect, will of God."@)
    } else if i == 9 {
        ("Matthew 6:33"@, "But seek ye first the kingdom of God, and his righteousness; and all these things shall be added unto you."@)
    } else if i == 10 {
        ("Psalm 119:105"@, "Thy word is a lamp unto my feet, and a light unto my path."@)
    } else if i == 11 {
        ("Ephesians 2:8-9"@, "For by grace are ye saved through faith; and that not of yourselves: it is the gift of God: Not of works, lest any man should boast."@)
    } else if i == 12 {
        ("Joshua 1:9"@, "Have not I commanded thee? Be strong and of a good courage; be not afraid, neither be thou dismayed: for the LORD thy God is with thee whithersoever thou goest."@)
    } else if i == 13 {
        ("1 Corinthians 13:4-5"@, "Charity suffereth long, and is kind; charity envieth not; charity vaunteth not itself, is not puffed up, Doth not behave itself unseemly, seeketh not her own, is not easily provoked, thinketh no evil;"@)
    } else if i == 14 {
        ("Psalm 27:1"@, "The LORD is my light and my salvation; whom shall I fear? the LORD is the strength of my life; of whom shall I be afraid?"@)
    } else if i == 15 {
        ("Galatians 5:22-23"@, "But the fruit of the Spirit is love, joy, peace, longsuffering, gentleness, goodness, faith, Meekness, temperance: against such there is no law."@)
    } else if i == 16 {
        ("Matthew 11:28"@, "Come unto me, all ye that labour and are heavy laden, and I will give you rest."@)
    } else if i == 17 {
        ("2 Timothy 1:7"@, "For God hath not given us the spirit of fear; but of power, and of love, and of a sound mind."@)
    } else if i == 18 {
        ("Hebrews 11:1"@, "Now faith is the substance of things hoped for, the evidence of things not seen."@)
    } else if i == 19 {
        ("Psalm 37:4"@, "Delight thyself also in the LORD; and he shall give thee the desires of thine heart."@)
    } else if i == 20 {
        ("Romans 5:8"@, "But God commendeth his love toward us, in that, while we were yet sinners, Christ died for us."@)
    } else if i == 21 {
        ("2 Corinthians 5:17"@, "Therefore if any man be in Christ, he is a new creature: old things are passed away; behold, all things are become new."@)
    } else if i == 22 {
        ("Psalm 91:1-2"@, "He that dwelleth in the secret place of the most High shall abide under the shadow of the Almighty. I will say of the LORD, He is my refuge and my fortress: my God; in him will I trust."@)
    } else if i == 23 {
        ("Isaiah 41:10"@, "Fear thou not; for I am with thee: be not dismayed; for I am thy God: I will strengthen thee; yea, I will help thee; yea, I will uphold thee with the right hand of my righteousness."@)
    } else if i == 24 {
        ("1 Peter 5:7"@, "Casting all your care upon him; for he careth for you."@)
    } else if i == 25 {
        ("Psalm 34:8"@, "O taste and see that the LORD is good: blessed is the man that trusteth in him."@)
    } else if i == 26 {
        ("James 1:2-3"@, "My brethren, count it all joy when ye fall into divers temptations; Knowing this, that the trying of your faith worketh patience."@)
    } else if i == 27 {
        ("Colossians 3:23"@, "And whatsoever ye do, do it heartily, as to the Lord, and not unto men;"@)
    } else if i == 28 {
        ("Psalm 103:1"@, "Bless the LORD, O my soul: and all that is within me, bless his holy name."@)
    } else if i == 29 {
        ("Matthew 5:16"@, "Let your light so shine before men, that they may see your good works, and glorify your Father which is in heaven."@)
    } else {
        ("Hebrews 12:2"@, "Looking unto Jesus the author and finisher of our faith; who for the joy that was set before him endured the cross, despising the shame, and is set down at the right hand of the throne of God."@)
    }
}

fn votd_entry_chirho(i: u64) -> (r: (&'static str, &'static str))
    requires
        i < VERSE_OF_THE_DAY_COUNT_CHIRHO,
    ensures
        (r.0@, r.1@) == spec_votd_entry_chirho(i as int),
{
    if i == 0 {
        ("John 3:16", "For God so loved the world, that he gave his only begotten Son, that whosoever believeth in him should not perish, but have everlasting life.")
    } else if i == 1 {
        ("Psalm 23:1", "The LORD is my shepherd; I shall not want.")
    } else if i == 2 {
        ("Jeremiah 29:11", "For I know the thoughts that I think toward you, saith the LORD, thoughts of peace, and not of evil, to give you an expected end.")
    } else if i == 3 {
        ("Romans 8:28", "And we know that all things work together for good to them that love God, to them who are the called according to his purpose.")
    } else if i == 4 {
        ("Philippians 4:13", "I can do all things through Christ which strengtheneth me.")
    } else if i == 5 {
        ("Proverbs 3:5-6", "Trust in the LORD with all thine heart; and lean not unto thine own understanding. In all thy ways acknowledge him, and he shall direct thy paths.")
    } else if i == 6 {
        ("Isaiah 40:31", "But they that wait upon the LORD shall renew their strength; they shall mount up with wings as eagles; they shall run, and not be weary; and they shall walk, and not faint.")
    } else if i == 7 {
        ("Psalm 46:1", "God is our refuge and strength, a very present help in trouble.")
    } else if i == 8 {
        ("Romans 12:2", "And be not conformed to this world: but be ye transformed by the renewing of your mind, that ye may prove what is that good, and acceptable, and perfect, will of God.")
    } else if i == 9 {
        ("Matthew 6:33", "But seek ye first the kingdom of God, and his righteousness; and all these things shall be added unto you.")
    } else if i == 10 {
        ("Psalm 119:105", "Thy word is a lamp unto my feet, and a light unto my path.")
    } else if i == 11 {
        ("Ephesians 2:8-9", "For by grace are ye saved through faith; and that not of yourselves: it is the gift of God: Not of works, lest any man should boast.")
    } else if i == 12 {
        ("Joshua 1:9", "Have not I commanded thee? Be strong and of a good courage; be not afraid, neither be thou dismayed: for the LORD thy God is with thee whithersoever thou goest.")
    } else if i == 13 {
        ("1 Corinthians 13:4-5", "Charity suffereth long, and is kind; charity envieth not; charity vaunteth not itself, is not puffed up, Doth not behave itself unseemly, seeketh not her own, is not easily provoked, thinketh no evil;")
    } else if i == 14 {
        ("Psalm 27:1", "The LORD is my light and my salvation; whom shall I fear? the LORD is the strength of my life; of whom shall I be afraid?")
    } else if i == 15 {
        ("Galatians 5:22-23", "But the fruit of the Spirit is love, joy, peace, longsuffering, gentleness, goodness, faith, Meekness, temperance: against such there is no law.")
    } else if i == 16 {
        ("Matthew 11:28", "Come unto me, all ye that labour and are heavy laden, and I will give you rest.")
    } else if i == 17 {
        ("2 Timothy 1:7", "For God hath not given us the spirit of fear; but of power, and of love, and of a sound mind.")
    } else if i == 18 {
        ("Hebrews 11:1", "Now faith is the substance of things hoped for, the evidence of things not seen.")
    } else if i == 19 {
        ("Psalm 37:4", "Delight thyself also in the LORD; and he shall give thee the desires of thine heart.")
    } else if i == 20 {
        ("Romans 5:8", "But God commendeth his love toward us, in that, while we were yet sinners, Christ died for us.")
    } else if i == 21 {
        ("2 Corinthians 5:17", "Therefore if any man be in Christ, he is a new creature: old things are passed away; behold, all things are become new.")
    } else if i == 22 {
        ("Psalm 91:1-2", "He that dwelleth in the secret place of the most High shall abide under the shadow of the Almighty. I will say of the LORD, He is my refuge and my fortress: my God; in him will I trust.")
    } else if i == 23 {
        ("Isaiah 41:10", "Fear thou not; for I am with thee: be not dismayed; for I am thy God: I will strengthen thee; yea, I will help thee; yea, I will uphold thee with the right hand of my righteousness.")
    } else if i == 24 {
        ("1 Peter 5:7", "Casting all your care upon him; for he careth for you.")
    } else if i == 25 {
        ("Psalm 34:8", "O taste and see that the LORD is good: blessed is the man that trusteth in him.")
    } else if i == 26 {
        ("James 1:2-3", "My brethren, count it all joy when ye fall into divers temptations; Knowing this, that the trying of your faith worketh patience.")
    } else if i == 27 {
        ("Colossians 3:23", "And whatsoever ye do, do it heartily, as to the Lord, and not unto men;")
    } else if i == 28 {
        ("Psalm 103:1", "Bless the LORD, O my soul: and all that is within me, bless his holy name.")
    } else if i == 29 {
        ("Matthew 5:16", "Let your light so shine before men, that they may see your good works, and glorify your Father which is in heaven.")
    } else {
        ("Hebrews 12:2", "Looking unto Jesus the author and finisher of our faith; who for the joy that was set before him endured the cross, despising the shame, and is set down at the right hand of the throne of God.")
    }
}

/// The verse of the day for the day that is `days_since_epoch` days after
/// January 1st, 1970: the curated verses are cycled through, one per day.
pub fn verse_of_the_day_for_chirho(days_since_epoch: u64) -> (r: (String, String))
    ensures
        (r.0@, r.1@) == spec_votd_entry_chirho((days_since_epoch % VERSE_OF_THE_DAY_COUNT_CHIRHO) as int),
{
    let e = votd_entry_chirho(days_since_epoch % VERSE_OF_THE_DAY_COUNT_CHIRHO);
    (String::from_str(e.0), String::from_str(e.1))
}

/// Whole seconds since the Unix epoch by the system clock
/// (`SystemTime::now().duration_since(UNIX_EPOCH)`, 0 when the clock is
/// before it). It depends on the clock, so nothing is stated of it.
#[verifier::external_body]
fn unix_seconds_chirho() -> (r: u64) {
    std::time::SystemTime::now().duration_since(std::time::UNIX_EPOCH).map(|d| d.as_secs()).unwrap_or(0)
}

/// Today's verse of the day (see `verse_of_the_day_for_chirho`).
pub fn get_verse_of_the_day_chirho() -> (r: (String, String))
    ensures
        exists|day: u64|
            (r.0@, r.1@) == #[trigger] spec_votd_entry_chirho((day % VERSE_OF_THE_DAY_COUNT_CHIRHO) as int),
{
    let day = unix_seconds_chirho() / 86400;
    verse_of_the_day_for_chirho(day)
}

/// An interlinear word by its fields.
pub open spec fn spec_word_chirho(
    original: Seq<char>,
    transliteration: Seq<char>,
    morphology: Seq<char>,
    strongs: Seq<char>,
    gloss: Seq<char>,
    part_of_speech: Seq<char>,
    is_hebrew: bool,
) -> InterlinearWordViewChirho {
    InterlinearWordViewChirho {
        original,
        transliteration,
        morphology,
        strongs,
        gloss,
        part_of_speech,
        is_hebrew,
    }
}

fn word_chirho(
    original: &str,
    transliteration: &str,
    morphology: &str,
    strongs: &str,
    gloss: &str,
    part_of_speech: &str,
    is_hebrew: bool,
) -> (r: InterlinearWordChirho)
    ensures
        r@ == spec_word_chirho(
            original@,
            transliteration@,
            morphology@,
            strongs@,
            gloss@,
            part_of_speech@,
            is_hebrew,
        ),
{
    InterlinearWordChirho {
        original_chirho: String::from_str(original),
        transliteration_chirho: String::from_str(transliteration),
        morphology_chirho: String::from_str(morphology),
        strongs_chirho: String::from_str(strongs),
        gloss_chirho: String::from_str(gloss),
        part_of_speech_chirho: String::from_str(part_of_speech),
        is_hebrew_chirho: is_hebrew,
    }
}

/// The sample interlinear words of a verse reference: Genesis 1 in Hebrew,
/// John 3 in Greek, and a placeholder word for anything else.
pub open spec fn spec_sample_interlinear_chirho(r: Seq<char>) -> Seq<InterlinearWordViewChirho> {
    if spec_contains_chirho(r, "Genesis 1:1"@) || spec_contains_chirho(r, "Genesis 1"@) {
        seq![spec_word_chirho("בְּרֵאשִׁ֖ית"@, "bəreʾšiṯ"@, "Prep-b | N-fs"@, "H7225"@, "In [the] beginning"@, "Noun"@, true), spec_word_chirho("בָּרָ֣א"@, "bārāʾ"@, "V-Qal-Perf-3ms"@, "H1254"@, "created"@, "Verb"@, true), spec_word_chirho("אֱלֹהִ֑ים"@, "ʾĕlōhîm"@, "N-mp"@, "H430"@, "God"@, "Noun"@, true), spec_word_chirho("אֵ֥ת"@, "ʾēṯ"@, "DirObjM"@, "H853"@, "[direct object]"@, "Particle"@, true), spec_word_chirho("הַשָּׁמַ֖יִם"@, "haššāmayim"@, "Art | N-mp"@, "H8064"@, "the heavens"@, "Noun"@, true), spec_word_chirho("וְאֵ֥ת"@, "wəʾēṯ"@, "Conj-w | DirObjM"@, "H853"@, "and [direct object]"@, "Conjunction"@, true), spec_word_chirho("הָאָֽרֶץ"@, "hāʾāreṣ"@, "Art | N-fs"@, "H776"@, "the earth"@, "Noun"@, true)]
    } else if spec_contains_chirho(r, "John 3:16"@) || spec_contains_chirho(r, "John 3"@) {
        seq![spec_word_chirho("Οὕτως"@, "houtōs"@, "Adv"@, "G3779"@, "For so"@, "Adverb"@, false), spec_word_chirho("γὰρ"@, "gar"@, "Conj"@, "G1063"@, "for"@, "Conjunction"@, false), spec_word_chirho("ἠγάπησεν"@, "ēgapēsen"@, "V-AAI-3S"@, "G25"@, "loved"@, "Verb"@, false), spec_word_chirho("ὁ θεὸς"@, "ho theos"@, "Art | N-NMS"@, "G2316"@, "God"@, "Noun"@, false), spec_word_chirho("τὸν κόσμον"@, "ton kosmon"@, "Art | N-AMS"@, "G2889"@, "the world"@, "Noun"@, false), spec_word_chirho("ὥστε"@, "hōste"@, "Conj"@, "G5620"@, "that"@, "Conjunction"@, false), spec_word_chirho("τὸν υἱὸν"@, "ton huion"@, "Art | N-AMS"@, "G5207"@, "the Son"@, "Noun"@, false), spec_word_chirho("τὸν μονογενῆ"@, "ton monogenē"@, "Art | Adj-AMS"@, "G3439"@, "the only begotten"@, "Adjective"@, false), spec_word_chirho("ἔδωκεν"@, "edōken"@, "V-AAI-3S"@, "G1325"@, "He gave"@, "Verb"@, false)]
    } else {
        seq![spec_word_chirho("[Sample]"@, "sample"@, "N/A"@, ""@, "Interlinear data not available"@, "Info"@, false)]
    }
}

/// Sample interlinear words for a verse reference.
pub fn get_sample_interlinear_chirho(verse_ref: &str) -> (r: Vec<InterlinearWordChirho>)
    ensures
        r@.map_values(|w: InterlinearWordChirho| w@) == spec_sample_interlinear_chirho(verse_ref@),
{
    let v = chars_of_chirho(verse_ref);
    let mut r: Vec<InterlinearWordChirho> = Vec::new();
    if contains_chirho(&v, &chars_of_chirho("Genesis 1:1")) || contains_chirho(&v, &chars_of_chirho("Genesis 1")) {
        r.push(word_chirho("בְּרֵאשִׁ֖ית", "bəreʾšiṯ", "Prep-b | N-fs", "H7225", "In [the] beginning", "Noun", true));
        r.push(word_chirho("בָּרָ֣א", "bārāʾ", "V-Qal-Perf-3ms", "H1254", "created", "Verb", true));
        r.push(word_chirho("אֱלֹהִ֑ים", "ʾĕlōhîm", "N-mp", "H430", "God", "Noun", true));
        r.push(word_chirho("אֵ֥ת", "ʾēṯ", "DirObjM", "H853", "[direct object]", "Particle", true));
        r.push(word_chirho("הַשָּׁמַ֖יִם", "haššāmayim", "Art | N-mp", "H8064", "the heavens", "Noun", true));
        r.push(word_chirho("וְאֵ֥ת", "wəʾēṯ", "Conj-w | DirObjM", "H853", "and [direct object]", "Conjunction", true));
        r.push(word_chirho("הָאָֽרֶץ", "hāʾāreṣ", "Art | N-fs", "H776", "the earth", "Noun", true));
    } else if contains_chirho(&v, &chars_of_chirho("John 3:16")) || contains_chirho(&v, &chars_of_chirho("John 3")) {
        r.push(word_chirho("Οὕτως", "houtōs", "Adv", "G3779", "For so", "Adverb", false));
        r.push(word_chirho("γὰρ", "gar", "Conj", "G1063", "for", "Conjunction", false));
        r.push(word_chirho("ἠγάπησεν", "ēgapēsen", "V-AAI-3S", "G25", "loved", "Verb", false));
        r.push(word_chirho("ὁ θεὸς", "ho theos", "Art | N-NMS", "G2316", "God", "Noun", false));
        r.push(word_chirho("τὸν κόσμον", "ton kosmon", "Art | N-AMS", "G2889", "the world", "Noun", false));
        r.push(word_chirho("ὥστε", "hōste", "Conj", "G5620", "that", "Conjunction", false));
        r.push(word_chirho("τὸν υἱὸν", "ton huion", "Art | N-AMS", "G5207", "the Son", "Noun", false));
        r.push(word_chirho("τὸν μονογενῆ", "ton monogenē", "Art | Adj-AMS", "G3439", "the only begotten", "Adjective", false));
        r.push(word_chirho("ἔδωκεν", "edōken", "V-AAI-3S", "G1325", "He gave", "Verb", false));
    } else {
        r.push(word_chirho("[Sample]", "sample", "N/A", "", "Interlinear data not available", "Info", false));
    }
    assert(r@.map_values(|w: InterlinearWordChirho| w@) =~= spec_sample_interlinear_chirho(verse_ref@));
    r
}

} // verus!
