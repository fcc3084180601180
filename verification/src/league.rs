//! The thirty-two clubs a game can be played between.

use vstd::prelude::*;

verus! {

/// How many clubs there are.
pub const CLUB_COUNT: usize = 32;

/// The abbreviation of the club at a place of the list; the list is in
/// alphabetical order of the abbreviations.
pub open spec fn club_abbreviation(index: int) -> Seq<char> {
    if index == 0 {
        "ARI"@
    } else if index == 1 {
        "ATL"@
    } else if index == 2 {
        "BAL"@
    } else if index == 3 {
        "BOS"@
    } else if index == 4 {
        "CHC"@
    } else if index == 5 {
        "CIN"@
    } else if index == 6 {
        "CLE"@
    } else if index == 7 {
        "COL"@
    } else if index == 8 {
        "CWS"@
    } else if index == 9 {
        "DET"@
    } else if index == 10 {
        "HOU"@
    } else if index == 11 {
        "KC"@
    } else if index == 12 {
        "LAA"@
    } else if index == 13 {
        "LAD"@
    } else if index == 14 {
        "MIA"@
    } else if index == 15 {
        "MIL"@
    } else if index == 16 {
        "MIN"@
    } else if index == 17 {
        "NYM"@
    } else if index == 18 {
        "NYY"@
    } else if index == 19 {
        "OAK"@
    } else if index == 20 {
        "PHI"@
    } else if index == 21 {
        "PIT"@
    } else if index == 22 {
        "SD"@
    } else if index == 23 {
        "SDG"@
    } else if index == 24 {
        "SEA"@
    } else if index == 25 {
        "SF"@
    } else if index == 26 {
        "STL"@
    } else if index == 27 {
        "TB"@
    } else if index == 28 {
        "TEX"@
    } else if index == 29 {
        "THW"@
    } else if index == 30 {
        "TOR"@
    } else {
        "WSH"@
    }
}

/// The full name of the club at a place of the list.
pub open spec fn club_name(index: int) -> Seq<char> {
    if index == 0 {
        "Arizona Diamondbacks"@
    } else if index == 1 {
        "Atlanta Braves"@
    } else if index == 2 {
        "Baltimore Orioles"@
    } else if index == 3 {
        "Boston Red Sox"@
    } else if index == 4 {
        "Chicago Cubs"@
    } else if index == 5 {
        "Cincinnati Reds"@
    } else if index == 6 {
        "Cleveland Guardians"@
    } else if index == 7 {
        "Colorado Rockies"@
    } else if index == 8 {
        "Chicago White Sox"@
    } else if index == 9 {
        "Detroit Tigers"@
    } else if index == 10 {
        "Houston Astros"@
    } else if index == 11 {
        "Kansas City Royals"@
    } else if index == 12 {
        "Los Angeles Angels"@
    } else if index == 13 {
        "Los Angeles Dodgers"@
    } else if index == 14 {
        "Miami Marlins"@
    } else if index == 15 {
        "Milwaukee Brewers"@
    } else if index == 16 {
        "Minnesota Twins"@
    } else if index == 17 {
        "New York Mets"@
    } else if index == 18 {
        "New York Yankees"@
    } else if index == 19 {
        "Oakland Athletics"@
    } else if index == 20 {
        "Philadelphia Phillies"@
    } else if index == 21 {
        "Pittsburgh Pirates"@
    } else if index == 22 {
        "San Diego Padres"@
    } else if index == 23 {
        "Storm Dragons"@
    } else if index == 24 {
        "Seattle Mariners"@
    } else if index == 25 {
        "San Francisco Giants"@
    } else if index == 26 {
        "St. Louis Cardinals"@
    } else if index == 27 {
        "Tampa Bay Rays"@
    } else if index == 28 {
        "Texas Rangers"@
    } else if index == 29 {
        "Thunder Hawks"@
    } else if index == 30 {
        "Toronto Blue Jays"@
    } else {
        "Washington Nationals"@
    }
}

/// Where a club with the given abbreviation stands in the list, looking from
/// `start` on.
pub open spec fn find_club(abbr: Seq<char>, start: int) -> Option<int>
    decreases 32 - start,
{
    if start < 0 || start >= 32 {
        None
    } else if club_abbreviation(start) == abbr {
        Some(start)
    } else {
        find_club(abbr, start + 1)
    }
}

/// The full name that goes with an abbreviation; an abbreviation that is not
/// on the list stands for itself.
pub open spec fn full_name_of(abbr: Seq<char>) -> Seq<char> {
    match find_club(abbr, 0) {
        Some(i) => club_name(i),
        None => abbr,
    }
}

pub fn abbreviation_at(index: usize) -> (abbr: &'static str)
    ensures
        abbr@ == club_abbreviation(index as int),
{
    if index == 0 {
        "ARI"
    } else if index == 1 {
        "ATL"
    } else if index == 2 {
        "BAL"
    } else if index == 3 {
        "BOS"
    } else if index == 4 {
        "CHC"
    } else if index == 5 {
        "CIN"
    } else if index == 6 {
        "CLE"
    } else if index == 7 {
        "COL"
    } else if index == 8 {
        "CWS"
    } else if index == 9 {
        "DET"
    } else if index == 10 {
        "HOU"
    } else if index == 11 {
        "KC"
    } else if index == 12 {
        "LAA"
    } else if index == 13 {
        "LAD"
    } else if index == 14 {
        "MIA"
    } else if index == 15 {
        "MIL"
    } else if index == 16 {
        "MIN"
    } else if index == 17 {
        "NYM"
    } else if index == 18 {
        "NYY"
    } else if index == 19 {
        "OAK"
    } else if index == 20 {
        "PHI"
    } else if index == 21 {
        "PIT"
    } else if index == 22 {
        "SD"
    } else if index == 23 {
        "SDG"
    } else if index == 24 {
        "SEA"
    } else if index == 25 {
        "SF"
    } else if index == 26 {
        "STL"
    } else if index == 27 {
        "TB"
    } else if index == 28 {
        "TEX"
    } else if index == 29 {
        "THW"
    } else if index == 30 {
        "TOR"
    } else {
        "WSH"
    }
}

pub fn name_at(index: usize) -> (name: &'static str)
    ensures
        name@ == club_name(index as int),
{
    if index == 0 {
        "Arizona Diamondbacks"
    } else if index == 1 {
        "Atlanta Braves"
    } else if index == 2 {
        "Baltimore Orioles"
    } else if index == 3 {
        "Boston Red Sox"
    } else if index == 4 {
        "Chicago Cubs"
    } else if index == 5 {
        "Cincinnati Reds"
    } else if index == 6 {
        "Cleveland Guardians"
    } else if index == 7 {
        "Colorado Rockies"
    } else if index == 8 {
        "Chicago White Sox"
    } else if index == 9 {
        "Detroit Tigers"
    } else if index == 10 {
        "Houston Astros"
    } else if index == 11 {
        "Kansas City Royals"
    } else if index == 12 {
        "Los Angeles Angels"
    } else if index == 13 {
        "Los Angeles Dodgers"
    } else if index == 14 {
        "Miami Marlins"
    } else if index == 15 {
        "Milwaukee Brewers"
    } else if index == 16 {
        "Minnesota Twins"
    } else if index == 17 {
        "New York Mets"
    } else if index == 18 {
        "New York Yankees"
    } else if index == 19 {
        "Oakland Athletics"
    } else if index == 20 {
        "Philadelphia Phillies"
    } else if index == 21 {
        "Pittsburgh Pirates"
    } else if index == 22 {
        "San Diego Padres"
    } else if index == 23 {
        "Storm Dragons"
    } else if index == 24 {
        "Seattle Mariners"
    } else if index == 25 {
        "San Francisco Giants"
    } else if index == 26 {
        "St. Louis Cardinals"
    } else if index == 27 {
        "Tampa Bay Rays"
    } else if index == 28 {
        "Texas Rangers"
    } else if index == 29 {
        "Thunder Hawks"
    } else if index == 30 {
        "Toronto Blue Jays"
    } else {
        "Washington Nationals"
    }
}

} // verus!
