//! The built-in list of removable applications.

use vstd::prelude::*;
use crate::model::{app_ids_unique, BloatwareApp};

verus! {

/// Number of rows of the built-in table.
pub const DEFINITION_COUNT: usize = 135;

/// Row `i` of the built-in table: id, name, description, whether removal is
/// considered safe, and package pattern.
pub open spec fn definition_row(i: int) -> (Seq<char>, Seq<char>, Seq<char>, bool, Seq<char>) {
    if i == 0 {
        ("clipchamp"@, "Clipchamp"@, "Video editor from Microsoft"@, true, "Clipchamp.Clipchamp"@)
    } else if i == 1 {
        ("cortana"@, "Cortana"@, "Microsoft Cortana voice assistant (Discontinued)"@, true, "Microsoft.549981C3F5F10"@)
    } else if i == 2 {
        ("copilot"@, "Microsoft Copilot"@, "AI assistant integrated into Windows"@, true, "Microsoft.Copilot"@)
    } else if i == 3 {
        ("bing-weather"@, "Weather App"@, "Weather forecast via Bing"@, true, "Microsoft.BingWeather"@)
    } else if i == 4 {
        ("bing-news"@, "News App"@, "News aggregator via Bing"@, true, "Microsoft.BingNews"@)
    } else if i == 5 {
        ("bing-sports"@, "Bing Sports"@, "Sports news and scores via Bing (Discontinued)"@, true, "Microsoft.BingSports"@)
    } else if i == 6 {
        ("bing-finance"@, "Bing Finance"@, "Finance news and tracking via Bing (Discontinued)"@, true, "Microsoft.BingFinance"@)
    } else if i == 7 {
        ("bing-search"@, "Bing Search"@, "Web Search from Microsoft Bing"@, true, "Microsoft.BingSearch"@)
    } else if i == 8 {
        ("3d-builder"@, "3D Builder"@, "Basic 3D modeling software"@, true, "Microsoft.3DBuilder"@)
    } else if i == 9 {
        ("3d-viewer"@, "3D Viewer"@, "Viewer for 3D models"@, true, "Microsoft.Microsoft3DViewer"@)
    } else if i == 10 {
        ("print-3d"@, "Print 3D"@, "3D printing preparation software"@, true, "Microsoft.Print3D"@)
    } else if i == 11 {
        ("paint-3d"@, "Paint 3D"@, "Modern paint application with 3D features"@, true, "Microsoft.MSPaint"@)
    } else if i == 12 {
        ("office-hub"@, "Office Hub"@, "Hub to access Microsoft Office apps and documents"@, true, "Microsoft.MicrosoftOfficeHub"@)
    } else if i == 13 {
        ("office-sway"@, "Sway"@, "Presentation and storytelling app"@, true, "Microsoft.Office.Sway"@)
    } else if i == 14 {
        ("onenote"@, "OneNote (UWP)"@, "Digital note-taking app (UWP version)"@, true, "Microsoft.Office.OneNote"@)
    } else if i == 15 {
        ("microsoft-solitaire"@, "Solitaire Collection"@, "Collection of solitaire card games"@, true, "Microsoft.MicrosoftSolitaireCollection"@)
    } else if i == 16 {
        ("sticky-notes"@, "Sticky Notes"@, "Digital sticky notes app (Deprecated)"@, true, "Microsoft.MicrosoftStickyNotes"@)
    } else if i == 17 {
        ("microsoft-todo"@, "Microsoft To Do"@, "To-do list and task management app"@, true, "Microsoft.Todos"@)
    } else if i == 18 {
        ("microsoft-journal"@, "Microsoft Journal"@, "Digital note-taking app optimized for pen input"@, true, "Microsoft.MicrosoftJournal"@)
    } else if i == 19 {
        ("power-automate"@, "Power Automate"@, "Desktop automation tool (RPA)"@, true, "Microsoft.PowerAutomateDesktop"@)
    } else if i == 20 {
        ("power-bi"@, "Power BI"@, "Business analytics service client"@, true, "Microsoft.MicrosoftPowerBIForWindows"@)
    } else if i == 21 {
        ("dev-home"@, "Dev Home"@, "Developer dashboard and tool configuration (Discontinued)"@, true, "Microsoft.Windows.DevHome"@)
    } else if i == 22 {
        ("mixed-reality-portal"@, "Mixed Reality Portal"@, "Portal for Windows Mixed Reality headsets"@, true, "Microsoft.MixedReality.Portal"@)
    } else if i == 23 {
        ("network-speed-test"@, "Network Speed Test"@, "Internet connection speed test utility"@, true, "Microsoft.NetworkSpeedTest"@)
    } else if i == 24 {
        ("microsoft-news"@, "Microsoft News"@, "News aggregator (now part of Microsoft Start)"@, true, "Microsoft.News"@)
    } else if i == 25 {
        ("messaging"@, "Messaging"@, "Messaging app, often integrates with Skype (Deprecated)"@, true, "Microsoft.Messaging"@)
    } else if i == 26 {
        ("skype-app"@, "Skype (UWP)"@, "Skype communication app, UWP version (Discontinued)"@, true, "Microsoft.SkypeApp"@)
    } else if i == 27 {
        ("oneconnect"@, "One Connect"@, "Mobile Operator management app (Replaced by Mobile Plans)"@, true, "Microsoft.OneConnect"@)
    } else if i == 28 {
        ("windows-maps"@, "Windows Maps"@, "Mapping and navigation app"@, true, "Microsoft.WindowsMaps"@)
    } else if i == 29 {
        ("windows-alarms"@, "Alarms & Clock"@, "Alarms & Clock app"@, true, "Microsoft.WindowsAlarms"@)
    } else if i == 30 {
        ("sound-recorder"@, "Sound Recorder"@, "Basic audio recording app"@, true, "Microsoft.WindowsSoundRecorder"@)
    } else if i == 31 {
        ("windows-feedback-hub"@, "Feedback Hub"@, "App for providing feedback to Microsoft on Windows"@, true, "Microsoft.WindowsFeedbackHub"@)
    } else if i == 32 {
        ("get-help"@, "Get Help"@, "Required for some Windows 11 Troubleshooters and support"@, true, "Microsoft.GetHelp"@)
    } else if i == 33 {
        ("get-started"@, "Get Started"@, "Tips and introductory guide for Windows"@, true, "Microsoft.Getstarted"@)
    } else if i == 34 {
        ("zune-music"@, "Media Player"@, "Modern Media Player (Replaced Groove Music)"@, true, "Microsoft.ZuneMusic"@)
    } else if i == 35 {
        ("zune-video"@, "Movies & TV"@, "Movies & TV app for video content"@, true, "Microsoft.ZuneVideo"@)
    } else if i == 36 {
        ("people-app"@, "People"@, "Contacts management app"@, true, "Microsoft.People"@)
    } else if i == 37 {
        ("mail-calendar"@, "Mail & Calendar"@, "Mail & Calendar app suite (Discontinued)"@, true, "Microsoft.windowscommunicationsapps"@)
    } else if i == 38 {
        ("outlook-new"@, "Outlook for Windows"@, "New Outlook for Windows mail client"@, true, "Microsoft.OutlookForWindows"@)
    } else if i == 39 {
        ("xbox-app"@, "Xbox Console Companion"@, "Old Xbox Console Companion App (Discontinued)"@, true, "Microsoft.XboxApp"@)
    } else if i == 40 {
        ("xbox-tcui"@, "Xbox TCUI Framework"@, "UI framework required for Microsoft Store and certain games"@, false, "Microsoft.Xbox.TCUI"@)
    } else if i == 41 {
        ("xbox-game-overlay"@, "Xbox Game Overlay"@, "Game overlay, part of Xbox Game Bar"@, false, "Microsoft.XboxGameOverlay"@)
    } else if i == 42 {
        ("xbox-gaming-overlay"@, "Xbox Gaming Overlay"@, "Game overlay, required/useful for some games"@, false, "Microsoft.XboxGamingOverlay"@)
    } else if i == 43 {
        ("xbox-identity"@, "Xbox Identity Provider"@, "Xbox sign-in framework, required for some games"@, false, "Microsoft.XboxIdentityProvider"@)
    } else if i == 44 {
        ("xbox-speech"@, "Xbox Speech To Text"@, "Accessibility feature required for some games"@, false, "Microsoft.XboxSpeechToTextOverlay"@)
    } else if i == 45 {
        ("xbox-gaming-app"@, "Xbox Gaming App"@, "Modern Xbox Gaming App, required for installing some PC games"@, false, "Microsoft.GamingApp"@)
    } else if i == 46 {
        ("microsoft-teams-old"@, "Microsoft Teams (Old)"@, "Old Microsoft Teams personal (MS Store version)"@, true, "MicrosoftTeams"@)
    } else if i == 47 {
        ("microsoft-teams-new"@, "Microsoft Teams (New)"@, "New Microsoft Teams app (Work/School or Personal)"@, true, "MSTeams"@)
    } else if i == 48 {
        ("family-safety"@, "Family Safety"@, "Family Safety App for managing family accounts"@, true, "MicrosoftCorporationII.MicrosoftFamily"@)
    } else if i == 49 {
        ("quick-assist"@, "Quick Assist"@, "Remote assistance tool"@, true, "MicrosoftCorporationII.QuickAssist"@)
    } else if i == 50 {
        ("cross-device"@, "Cross Device Experience"@, "Phone integration within File Explorer and more"@, true, "MicrosoftWindows.CrossDevice"@)
    } else if i == 51 {
        ("phone-link"@, "Phone Link"@, "Phone link (Connects Android/iOS phone to PC)"@, true, "Microsoft.YourPhone"@)
    } else if i == 52 {
        ("whiteboard"@, "Whiteboard"@, "Digital collaborative whiteboard app"@, true, "Microsoft.Whiteboard"@)
    } else if i == 53 {
        ("widgets-experience"@, "Widgets Experience"@, "This app powers Windows Widgets My Feed"@, true, "Microsoft.StartExperiencesApp"@)
    } else if i == 54 {
        ("m365-companions"@, "Microsoft 365 Companions"@, "Microsoft 365 Calendar, Files and People mini-apps"@, true, "Microsoft.M365Companions"@)
    } else if i == 55 {
        ("remote-desktop"@, "Remote Desktop"@, "Remote Desktop client app"@, true, "Microsoft.RemoteDesktop"@)
    } else if i == 56 {
        ("photos"@, "Photos"@, "Default photo viewing and basic editing app"@, true, "Microsoft.Windows.Photos"@)
    } else if i == 57 {
        ("paint"@, "Paint"@, "Classic Paint (Traditional 2D paint application)"@, true, "Microsoft.Paint"@)
    } else if i == 58 {
        ("notepad"@, "Notepad"@, "Notepad text editor app"@, true, "Microsoft.WindowsNotepad"@)
    } else if i == 59 {
        ("calculator"@, "Calculator"@, "Calculator app"@, true, "Microsoft.WindowsCalculator"@)
    } else if i == 60 {
        ("camera"@, "Camera"@, "Camera app for using built-in or connected cameras"@, false, "Microsoft.WindowsCamera"@)
    } else if i == 61 {
        ("snipping-tool"@, "Snipping Tool"@, "Screenshot and annotation tool"@, true, "Microsoft.ScreenSketch"@)
    } else if i == 62 {
        ("terminal"@, "Windows Terminal"@, "Default terminal app in Windows 11"@, true, "Microsoft.WindowsTerminal"@)
    } else if i == 63 {
        ("microsoft-store"@, "Microsoft Store"@, "Microsoft Store - WARNING: Cannot be reinstalled easily!"@, false, "Microsoft.WindowsStore"@)
    } else if i == 64 {
        ("microsoft-edge"@, "Microsoft Edge"@, "Edge browser (Can only be uninstalled in EEA)"@, false, "Microsoft.Edge"@)
    } else if i == 65 {
        ("onedrive"@, "OneDrive"@, "OneDrive consumer cloud storage client"@, false, "Microsoft.OneDrive"@)
    } else if i == 66 {
        ("spotify"@, "Spotify"@, "Spotify music streaming app"@, true, "SpotifyAB.SpotifyMusic"@)
    } else if i == 67 {
        ("netflix"@, "Netflix"@, "Netflix streaming service app"@, true, "4DF9E0F8.Netflix"@)
    } else if i == 68 {
        ("prime-video"@, "Prime Video"@, "Amazon Prime Video streaming service app"@, true, "AmazonVideo.PrimeVideo"@)
    } else if i == 69 {
        ("hulu"@, "Hulu"@, "Hulu streaming service app"@, true, "HULULLC.HULUPLUS"@)
    } else if i == 70 {
        ("tiktok"@, "TikTok"@, "TikTok short-form video app"@, true, "BytedancePte.Ltd.TikTok"@)
    } else if i == 71 {
        ("instagram"@, "Instagram"@, "Instagram social media app"@, true, "Facebook.Instagram"@)
    } else if i == 72 {
        ("facebook"@, "Facebook"@, "Facebook social media app"@, true, "Facebook.Facebook"@)
    } else if i == 73 {
        ("twitter"@, "Twitter (X)"@, "Twitter (now X) social media app"@, true, "9E2F88E3.Twitter"@)
    } else if i == 74 {
        ("linkedin"@, "LinkedIn"@, "LinkedIn professional networking app"@, true, "LinkedInforWindows"@)
    } else if i == 75 {
        ("flipboard"@, "Flipboard"@, "News and social network aggregator styled as a magazine"@, true, "Flipboard.Flipboard"@)
    } else if i == 76 {
        ("candy-crush-saga"@, "Candy Crush Saga"@, "Puzzle game from King"@, true, "king.com.CandyCrushSaga"@)
    } else if i == 77 {
        ("candy-crush-soda"@, "Candy Crush Soda"@, "Puzzle game from King"@, true, "king.com.CandyCrushSodaSaga"@)
    } else if i == 78 {
        ("bubble-witch-3"@, "Bubble Witch 3"@, "Puzzle game from King"@, true, "king.com.BubbleWitch3Saga"@)
    } else if i == 79 {
        ("asphalt-8"@, "Asphalt 8"@, "Racing game"@, true, "GAMELOFTSA.Asphalt8Airborne"@)
    } else if i == 80 {
        ("cooking-fever"@, "Cooking Fever"@, "Restaurant simulation game"@, true, "Nordcurrent.CookingFever"@)
    } else if i == 81 {
        ("disney-magic-kingdoms"@, "Disney Magic Kingdoms"@, "Disney theme park building game"@, true, "A278AB0D.DisneyMagicKingdoms"@)
    } else if i == 82 {
        ("march-of-empires"@, "March of Empires"@, "Strategy game"@, true, "Glu.MarchofEmpires"@)
    } else if i == 83 {
        ("royal-revolt"@, "Royal Revolt"@, "Tower defense / strategy game"@, true, "Microsoft.RoyalRevolt2"@)
    } else if i == 84 {
        ("duolingo"@, "Duolingo"@, "Language learning app"@, true, "DuoLLC.Duolingo-LearnLanguagesforFree"@)
    } else if i == 85 {
        ("photoshop-express"@, "Adobe Photoshop Express"@, "Basic photo editing app from Adobe"@, true, "AdobeSystemsIncorporated.AdobePhotoshopExpress"@)
    } else if i == 86 {
        ("picsart"@, "PicsArt"@, "Photo editing and creative app"@, true, "PicsArt.PicsArt-PhotoStudio"@)
    } else if i == 87 {
        ("polarr"@, "Polarr Photo Editor"@, "Photo editing app (Academic Edition)"@, true, "AcquiredOnline.PolarrPhotoEditorAcademicEdition"@)
    } else if i == 88 {
        ("drawboard-pdf"@, "Drawboard PDF"@, "PDF viewing and annotation app"@, true, "Drawboard.DrawboardPDF"@)
    } else if i == 89 {
        ("cyberlink-media-suite"@, "CyberLink Media Suite"@, "Multimedia software suite (often preinstalled by OEMs)"@, true, "CyberLinkCorp.ac.CyberLinkMediaSuiteEssentials"@)
    } else if i == 90 {
        ("plex"@, "Plex"@, "Media server and player app"@, true, "PlexInc.Plex"@)
    } else if i == 91 {
        ("iheartradio"@, "iHeartRadio"@, "Internet radio streaming app"@, true, "ClearChannel.iHeartRadio"@)
    } else if i == 92 {
        ("tunein-radio"@, "TuneIn Radio"@, "Internet radio streaming app"@, true, "TuneIn.TuneInRadio"@)
    } else if i == 93 {
        ("pandora"@, "Pandora"@, "Pandora music streaming app"@, true, "PandoraMediaInc.29680B314EFC2"@)
    } else if i == 94 {
        ("shazam"@, "Shazam"@, "Music identification app"@, true, "ShazamEntertainmentLtd.Shazam"@)
    } else if i == 95 {
        ("amazon"@, "Amazon"@, "Amazon shopping app"@, true, "Amazon.com.Amazon"@)
    } else if i == 96 {
        ("wallet"@, "Wallet"@, "Wallet app"@, true, "Microsoft.Wallet"@)
    } else if i == 97 {
        ("winzip"@, "WinZip"@, "File compression utility (UWP version)"@, true, "WinZipComputing.WinZipUniversal"@)
    } else if i == 98 {
        ("fitbit"@, "Fitbit"@, "Fitbit activity tracker companion app"@, true, "Fitbit.FitbitCoach"@)
    } else if i == 99 {
        ("viber"@, "Viber"@, "Messaging and calling app"@, true, "2414FC7A.Viber"@)
    } else if i == 100 {
        ("sling-tv"@, "Sling TV"@, "Live TV streaming service app"@, true, "SlingTVLLC.SlingTV"@)
    } else if i == 101 {
        ("acg-media-player"@, "ACG Media Player"@, "Media player app"@, true, "Acgeditor.ACGMediaPlayer"@)
    } else if i == 102 {
        ("one-calendar"@, "One Calendar"@, "Calendar aggregation app"@, true, "johnlangen.OneCalendar"@)
    } else if i == 103 {
        ("phototastic"@, "Phototastic Collage"@, "Photo collage creation app"@, true, "Xerysoft.PhototasticCollage"@)
    } else if i == 104 {
        ("actipro"@, "Actipro Software"@, "UI controls or software components, often bundled by OEMs"@, true, "ActiproSoftwareLLC"@)
    } else if i == 105 {
        ("autodesk-sketchbook"@, "Autodesk SketchBook"@, "Digital drawing and sketching app"@, true, "AutodeskInc.AutodeskSketchBook"@)
    } else if i == 106 {
        ("caesars-slots"@, "Caesars Slots"@, "Casino slot machine game"@, true, "Playtika.CaesarsSlotsFreeCasino"@)
    } else if i == 107 {
        ("farmville-2"@, "FarmVille 2"@, "Farming simulation game"@, true, "Zynga.FarmVille2CountryEscape"@)
    } else if i == 108 {
        ("hidden-city"@, "Hidden City"@, "Hidden object puzzle adventure game"@, true, "G5E.HiddenCityMysteryofShadows"@)
    } else if i == 109 {
        ("nyt-crossword"@, "NYT Crossword"@, "New York Times crossword puzzle app"@, true, "NYTimes.DailyCrossword"@)
    } else if i == 110 {
        ("eclipse-manager"@, "Eclipse Manager"@, "OEM software or utilities"@, true, "EclipseManager"@)
    } else if i == 111 {
        ("live-wallpaper"@, "Live Wallpaper"@, "Live wallpaper app"@, true, "Sidia.LiveWallpaper"@)
    } else if i == 112 {
        ("wunderlist"@, "Wunderlist"@, "To-do list app (Acquired by Microsoft, moved to To Do)"@, true, "6Wunderkinder.Wunderlist"@)
    } else if i == 113 {
        ("xing"@, "XING"@, "Professional networking platform"@, true, "XINGAG.XING"@)
    } else if i == 114 {
        ("disney"@, "Disney"@, "General Disney content app"@, true, "Disney.37853FC22B2CE"@)
    } else if i == 115 {
        ("hp-ai-center"@, "HP AI Experience Center"@, "HP OEM software, AI-enhanced features and support"@, true, "AD2F1837.HPAIExperienceCenter"@)
    } else if i == 116 {
        ("hp-connected-music"@, "HP Connected Music"@, "HP OEM software for music"@, true, "AD2F1837.HPConnectedMusic"@)
    } else if i == 117 {
        ("hp-connected-photo"@, "HP Connected Photo"@, "HP OEM software for photos"@, true, "AD2F1837.HPConnectedPhotopoweredbySnapfish"@)
    } else if i == 118 {
        ("hp-desktop-support"@, "HP Desktop Support Utilities"@, "HP OEM software providing desktop support tools"@, true, "AD2F1837.HPDesktopSupportUtilities"@)
    } else if i == 119 {
        ("hp-easy-clean"@, "HP Easy Clean"@, "HP OEM software for system cleaning"@, true, "AD2F1837.HPEasyClean"@)
    } else if i == 120 {
        ("hp-file-viewer"@, "HP File Viewer"@, "HP OEM software for viewing files"@, true, "AD2F1837.HPFileViewer"@)
    } else if i == 121 {
        ("hp-jumpstart"@, "HP JumpStarts"@, "HP OEM software for tutorials and quick access"@, true, "AD2F1837.HPJumpStarts"@)
    } else if i == 122 {
        ("hp-pc-diagnostics"@, "HP PC Hardware Diagnostics"@, "HP OEM software for PC hardware diagnostics"@, true, "AD2F1837.HPPCHardwareDiagnosticsWindows"@)
    } else if i == 123 {
        ("hp-power-manager"@, "HP Power Manager"@, "HP OEM software for managing power settings"@, true, "AD2F1837.HPPowerManager"@)
    } else if i == 124 {
        ("hp-printer-control"@, "HP Printer Control"@, "HP OEM software for managing HP printers"@, true, "AD2F1837.HPPrinterControl"@)
    } else if i == 125 {
        ("hp-privacy-settings"@, "HP Privacy Settings"@, "HP OEM software for managing privacy settings"@, true, "AD2F1837.HPPrivacySettings"@)
    } else if i == 126 {
        ("hp-quickdrop"@, "HP QuickDrop"@, "HP OEM software for quick file transfer"@, true, "AD2F1837.HPQuickDrop"@)
    } else if i == 127 {
        ("hp-quicktouch"@, "HP QuickTouch"@, "HP OEM software for touch-specific shortcuts"@, true, "AD2F1837.HPQuickTouch"@)
    } else if i == 128 {
        ("hp-registration"@, "HP Registration"@, "HP OEM software for product registration"@, true, "AD2F1837.HPRegistration"@)
    } else if i == 129 {
        ("hp-support-assistant"@, "HP Support Assistant"@, "HP OEM software for support and troubleshooting"@, true, "AD2F1837.HPSupportAssistant"@)
    } else if i == 130 {
        ("hp-sure-shield"@, "HP Sure Shield AI"@, "HP OEM security software, AI-based threat protection"@, true, "AD2F1837.HPSureShieldAI"@)
    } else if i == 131 {
        ("hp-system-info"@, "HP System Information"@, "HP OEM software for displaying system information"@, true, "AD2F1837.HPSystemInformation"@)
    } else if i == 132 {
        ("hp-welcome"@, "HP Welcome"@, "HP OEM software providing welcome experience"@, true, "AD2F1837.HPWelcome"@)
    } else if i == 133 {
        ("hp-workwell"@, "HP WorkWell"@, "HP OEM software focused on well-being"@, true, "AD2F1837.HPWorkWell"@)
    } else if i == 134 {
        ("myhp"@, "myHP"@, "HP OEM central hub app for device info and services"@, true, "AD2F1837.myHP"@)
    } else {
        (Seq::empty(), Seq::empty(), Seq::empty(), false, Seq::empty())
    }
}

/// `app` holds row `i` of the table and is not marked installed.
pub open spec fn holds_row(app: BloatwareApp, i: int) -> bool {
    &&& (app.id@, app.name@, app.description@, app.safe, app.package_pattern@) == definition_row(i)
    &&& !app.is_installed
}

/// `s` holds no `*` wildcard.
pub open spec fn has_no_wildcard(s: Seq<char>) -> bool {
    forall|k: int| 0 <= k < s.len() ==> s[k] != '*'
}

/// The length of an id with its first two and its last but one characters:
/// these already tell the table's ids apart.
pub open spec fn id_fingerprint(s: Seq<char>) -> (nat, char, char, char)
    recommends
        s.len() >= 2,
{
    (s.len(), s[0], s[1], s[s.len() - 2])
}

/// The row whose id has this fingerprint, or -1.
pub open spec fn row_of_fingerprint(f: (nat, char, char, char)) -> int {
    if f == (9nat, 'c', 'l', 'm') {
        0
    } else if f == (7nat, 'c', 'o', 'n') {
        1
    } else if f == (7nat, 'c', 'o', 'o') {
        2
    } else if f == (12nat, 'b', 'i', 'e') {
        3
    } else if f == (9nat, 'b', 'i', 'w') {
        4
    } else if f == (11nat, 'b', 'i', 't') {
        5
    } else if f == (12nat, 'b', 'i', 'c') {
        6
    } else if f == (11nat, 'b', 'i', 'c') {
        7
    } else if f == (10nat, '3', 'd', 'e') {
        8
    } else if f == (9nat, '3', 'd', 'e') {
        9
    } else if f == (8nat, 'p', 'r', '3') {
        10
    } else if f == (8nat, 'p', 'a', '3') {
        11
    } else if f == (10nat, 'o', 'f', 'u') {
        12
    } else if f == (11nat, 'o', 'f', 'a') {
        13
    } else if f == (7nat, 'o', 'n', 't') {
        14
    } else if f == (19nat, 'm', 'i', 'r') {
        15
    } else if f == (12nat, 's', 't', 'e') {
        16
    } else if f == (14nat, 'm', 'i', 'd') {
        17
    } else if f == (17nat, 'm', 'i', 'a') {
        18
    } else if f == (14nat, 'p', 'o', 't') {
        19
    } else if f == (8nat, 'p', 'o', 'b') {
        20
    } else if f == (8nat, 'd', 'e', 'm') {
        21
    } else if f == (20nat, 'm', 'i', 'a') {
        22
    } else if f == (18nat, 'n', 'e', 's') {
        23
    } else if f == (14nat, 'm', 'i', 'w') {
        24
    } else if f == (9nat, 'm', 'e', 'n') {
        25
    } else if f == (9nat, 's', 'k', 'p') {
        26
    } else if f == (10nat, 'o', 'n', 'c') {
        27
    } else if f == (12nat, 'w', 'i', 'p') {
        28
    } else if f == (14nat, 'w', 'i', 'm') {
        29
    } else if f == (14nat, 's', 'o', 'e') {
        30
    } else if f == (20nat, 'w', 'i', 'u') {
        31
    } else if f == (8nat, 'g', 'e', 'l') {
        32
    } else if f == (11nat, 'g', 'e', 'e') {
        33
    } else if f == (10nat, 'z', 'u', 'i') {
        34
    } else if f == (10nat, 'z', 'u', 'e') {
        35
    } else if f == (10nat, 'p', 'e', 'p') {
        36
    } else if f == (13nat, 'm', 'a', 'a') {
        37
    } else if f == (11nat, 'o', 'u', 'e') {
        38
    } else if f == (8nat, 'x', 'b', 'p') {
        39
    } else if f == (9nat, 'x', 'b', 'u') {
        40
    } else if f == (17nat, 'x', 'b', 'a') {
        41
    } else if f == (19nat, 'x', 'b', 'a') {
        42
    } else if f == (13nat, 'x', 'b', 't') {
        43
    } else if f == (11nat, 'x', 'b', 'c') {
        44
    } else if f == (15nat, 'x', 'b', 'p') {
        45
    } else if f == (19nat, 'm', 'i', 'l') {
        46
    } else if f == (19nat, 'm', 'i', 'e') {
        47
    } else if f == (13nat, 'f', 'a', 't') {
        48
    } else if f == (12nat, 'q', 'u', 's') {
        49
    } else if f == (12nat, 'c', 'r', 'c') {
        50
    } else if f == (10nat, 'p', 'h', 'n') {
        51
    } else if f == (10nat, 'w', 'h', 'r') {
        52
    } else if f == (18nat, 'w', 'i', 'c') {
        53
    } else if f == (15nat, 'm', '3', 'n') {
        54
    } else if f == (14nat, 'r', 'e', 'o') {
        55
    } else if f == (6nat, 'p', 'h', 'o') {
        56
    } else if f == (5nat, 'p', 'a', 'n') {
        57
    } else if f == (7nat, 'n', 'o', 'a') {
        58
    } else if f == (10nat, 'c', 'a', 'o') {
        59
    } else if f == (6nat, 'c', 'a', 'r') {
        60
    } else if f == (13nat, 's', 'n', 'o') {
        61
    } else if f == (8nat, 't', 'e', 'a') {
        62
    } else if f == (15nat, 'm', 'i', 'r') {
        63
    } else if f == (14nat, 'm', 'i', 'g') {
        64
    } else if f == (8nat, 'o', 'n', 'v') {
        65
    } else if f == (7nat, 's', 'p', 'f') {
        66
    } else if f == (7nat, 'n', 'e', 'i') {
        67
    } else if f == (11nat, 'p', 'r', 'e') {
        68
    } else if f == (4nat, 'h', 'u', 'l') {
        69
    } else if f == (6nat, 't', 'i', 'o') {
        70
    } else if f == (9nat, 'i', 'n', 'a') {
        71
    } else if f == (8nat, 'f', 'a', 'o') {
        72
    } else if f == (7nat, 't', 'w', 'e') {
        73
    } else if f == (8nat, 'l', 'i', 'i') {
        74
    } else if f == (9nat, 'f', 'l', 'r') {
        75
    } else if f == (16nat, 'c', 'a', 'g') {
        76
    } else if f == (16nat, 'c', 'a', 'd') {
        77
    } else if f == (14nat, 'b', 'u', '-') {
        78
    } else if f == (9nat, 'a', 's', '-') {
        79
    } else if f == (13nat, 'c', 'o', 'e') {
        80
    } else if f == (21nat, 'd', 'i', 'm') {
        81
    } else if f == (16nat, 'm', 'a', 'e') {
        82
    } else if f == (12nat, 'r', 'o', 'l') {
        83
    } else if f == (8nat, 'd', 'u', 'g') {
        84
    } else if f == (17nat, 'p', 'h', 's') {
        85
    } else if f == (7nat, 'p', 'i', 'r') {
        86
    } else if f == (6nat, 'p', 'o', 'r') {
        87
    } else if f == (13nat, 'd', 'r', 'd') {
        88
    } else if f == (21nat, 'c', 'y', 't') {
        89
    } else if f == (4nat, 'p', 'l', 'e') {
        90
    } else if f == (11nat, 'i', 'h', 'i') {
        91
    } else if f == (12nat, 't', 'u', 'i') {
        92
    } else if f == (7nat, 'p', 'a', 'r') {
        93
    } else if f == (6nat, 's', 'h', 'a') {
        94
    } else if f == (6nat, 'a', 'm', 'o') {
        95
    } else if f == (6nat, 'w', 'a', 'e') {
        96
    } else if f == (6nat, 'w', 'i', 'i') {
        97
    } else if f == (6nat, 'f', 'i', 'i') {
        98
    } else if f == (5nat, 'v', 'i', 'e') {
        99
    } else if f == (8nat, 's', 'l', 't') {
        100
    } else if f == (16nat, 'a', 'c', 'e') {
        101
    } else if f == (12nat, 'o', 'n', 'a') {
        102
    } else if f == (11nat, 'p', 'h', 'i') {
        103
    } else if f == (7nat, 'a', 'c', 'r') {
        104
    } else if f == (19nat, 'a', 'u', 'o') {
        105
    } else if f == (13nat, 'c', 'a', 't') {
        106
    } else if f == (11nat, 'f', 'a', '-') {
        107
    } else if f == (11nat, 'h', 'i', 't') {
        108
    } else if f == (13nat, 'n', 'y', 'r') {
        109
    } else if f == (15nat, 'e', 'c', 'e') {
        110
    } else if f == (14nat, 'l', 'i', 'e') {
        111
    } else if f == (10nat, 'w', 'u', 's') {
        112
    } else if f == (4nat, 'x', 'i', 'n') {
        113
    } else if f == (6nat, 'd', 'i', 'e') {
        114
    } else if f == (12nat, 'h', 'p', 'e') {
        115
    } else if f == (18nat, 'h', 'p', 'i') {
        116
    } else if f == (18nat, 'h', 'p', 't') {
        117
    } else if f == (18nat, 'h', 'p', 'r') {
        118
    } else if f == (13nat, 'h', 'p', 'a') {
        119
    } else if f == (14nat, 'h', 'p', 'e') {
        120
    } else if f == (12nat, 'h', 'p', 'r') {
        121
    } else if f == (17nat, 'h', 'p', 'c') {
        122
    } else if f == (16nat, 'h', 'p', 'e') {
        123
    } else if f == (18nat, 'h', 'p', 'o') {
        124
    } else if f == (19nat, 'h', 'p', 'g') {
        125
    } else if f == (12nat, 'h', 'p', 'o') {
        126
    } else if f == (13nat, 'h', 'p', 'c') {
        127
    } else if f == (15nat, 'h', 'p', 'o') {
        128
    } else if f == (20nat, 'h', 'p', 'n') {
        129
    } else if f == (14nat, 'h', 'p', 'l') {
        130
    } else if f == (14nat, 'h', 'p', 'f') {
        131
    } else if f == (10nat, 'h', 'p', 'm') {
        132
    } else if f == (11nat, 'h', 'p', 'l') {
        133
    } else if f == (4nat, 'm', 'y', 'h') {
        134
    } else {
        -1
    }
}

/// Facts of one row: its id has at least two characters and leads back to the
/// row through its fingerprint; its pattern is non-empty and has no `*`.
proof fn lemma_row(i: int)
    requires
        0 <= i < DEFINITION_COUNT,
    ensures
        definition_row(i).0.len() >= 2,
        row_of_fingerprint(id_fingerprint(definition_row(i).0)) == i,
        definition_row(i).4.len() > 0,
        has_no_wildcard(definition_row(i).4),
{
    if i == 0 {
        reveal_strlit("clipchamp");
        reveal_strlit("Clipchamp.Clipchamp");
    } else if i == 1 {
        reveal_strlit("cortana");
        reveal_strlit("Microsoft.549981C3F5F10");
    } else if i == 2 {
        reveal_strlit("copilot");
        reveal_strlit("Microsoft.Copilot");
    } else if i == 3 {
        reveal_strlit("bing-weather");
        reveal_strlit("Microsoft.BingWeather");
    } else if i == 4 {
        reveal_strlit("bing-news");
        reveal_strlit("Microsoft.BingNews");
    } else if i == 5 {
        reveal_strlit("bing-sports");
        reveal_strlit("Microsoft.BingSports");
    } else if i == 6 {
        reveal_strlit("bing-finance");
        reveal_strlit("Microsoft.BingFinance");
    } else if i == 7 {
        reveal_strlit("bing-search");
        reveal_strlit("Microsoft.BingSearch");
    } else if i == 8 {
        reveal_strlit("3d-builder");
        reveal_strlit("Microsoft.3DBuilder");
    } else if i == 9 {
        reveal_strlit("3d-viewer");
        reveal_strlit("Microsoft.Microsoft3DViewer");
    } else if i == 10 {
        reveal_strlit("print-3d");
        reveal_strlit("Microsoft.Print3D");
    } else if i == 11 {
        reveal_strlit("paint-3d");
        reveal_strlit("Microsoft.MSPaint");
    } else if i == 12 {
        reveal_strlit("office-hub");
        reveal_strlit("Microsoft.MicrosoftOfficeHub");
    } else if i == 13 {
        reveal_strlit("office-sway");
        reveal_strlit("Microsoft.Office.Sway");
    } else if i == 14 {
        reveal_strlit("onenote");
        reveal_strlit("Microsoft.Office.OneNote");
    } else if i == 15 {
        reveal_strlit("microsoft-solitaire");
        reveal_strlit("Microsoft.MicrosoftSolitaireCollection");
    } else if i == 16 {
        reveal_strlit("sticky-notes");
        reveal_strlit("Microsoft.MicrosoftStickyNotes");
    } else if i == 17 {
        reveal_strlit("microsoft-todo");
        reveal_strlit("Microsoft.Todos");
    } else if i == 18 {
        reveal_strlit("microsoft-journal");
        reveal_strlit("Microsoft.MicrosoftJournal");
    } else if i == 19 {
        reveal_strlit("power-automate");
        reveal_strlit("Microsoft.PowerAutomateDesktop");
    } else if i == 20 {
        reveal_strlit("power-bi");
        reveal_strlit("Microsoft.MicrosoftPowerBIForWindows");
    } else if i == 21 {
        reveal_strlit("dev-home");
        reveal_strlit("Microsoft.Windows.DevHome");
    } else if i == 22 {
        reveal_strlit("mixed-reality-portal");
        reveal_strlit("Microsoft.MixedReality.Portal");
    } else if i == 23 {
        reveal_strlit("network-speed-test");
        reveal_strlit("Microsoft.NetworkSpeedTest");
    } else if i == 24 {
        reveal_strlit("microsoft-news");
        reveal_strlit("Microsoft.News");
    } else if i == 25 {
        reveal_strlit("messaging");
        reveal_strlit("Microsoft.Messaging");
    } else if i == 26 {
        reveal_strlit("skype-app");
        reveal_strlit("Microsoft.SkypeApp");
    } else if i == 27 {
        reveal_strlit("oneconnect");
        reveal_strlit("Microsoft.OneConnect");
    } else if i == 28 {
        reveal_strlit("windows-maps");
        reveal_strlit("Microsoft.WindowsMaps");
    } else if i == 29 {
        reveal_strlit("windows-alarms");
        reveal_strlit("Microsoft.WindowsAlarms");
    } else if i == 30 {
        reveal_strlit("sound-recorder");
        reveal_strlit("Microsoft.WindowsSoundRecorder");
    } else if i == 31 {
        reveal_strlit("windows-feedback-hub");
        reveal_strlit("Microsoft.WindowsFeedbackHub");
    } else if i == 32 {
        reveal_strlit("get-help");
        reveal_strlit("Microsoft.GetHelp");
    } else if i == 33 {
        reveal_strlit("get-started");
        reveal_strlit("Microsoft.Getstarted");
    } else if i == 34 {
        reveal_strlit("zune-music");
        reveal_strlit("Microsoft.ZuneMusic");
    } else if i == 35 {
        reveal_strlit("zune-video");
        reveal_strlit("Microsoft.ZuneVideo");
    } else if i == 36 {
        reveal_strlit("people-app");
        reveal_strlit("Microsoft.People");
    } else if i == 37 {
        reveal_strlit("mail-calendar");
        reveal_strlit("Microsoft.windowscommunicationsapps");
    } else if i == 38 {
        reveal_strlit("outlook-new");
        reveal_strlit("Microsoft.OutlookForWindows");
    } else if i == 39 {
        reveal_strlit("xbox-app");
        reveal_strlit("Microsoft.XboxApp");
    } else if i == 40 {
        reveal_strlit("xbox-tcui");
        reveal_strlit("Microsoft.Xbox.TCUI");
    } else if i == 41 {
        reveal_strlit("xbox-game-overlay");
        reveal_strlit("Microsoft.XboxGameOverlay");
    } else if i == 42 {
        reveal_strlit("xbox-gaming-overlay");
        reveal_strlit("Microsoft.XboxGamingOverlay");
    } else if i == 43 {
        reveal_strlit("xbox-identity");
        reveal_strlit("Microsoft.XboxIdentityProvider");
    } else if i == 44 {
        reveal_strlit("xbox-speech");
        reveal_strlit("Microsoft.XboxSpeechToTextOverlay");
    } else if i == 45 {
        reveal_strlit("xbox-gaming-app");
        reveal_strlit("Microsoft.GamingApp");
    } else if i == 46 {
        reveal_strlit("microsoft-teams-old");
        reveal_strlit("MicrosoftTeams");
    } else if i == 47 {
        reveal_strlit("microsoft-teams-new");
        reveal_strlit("MSTeams");
    } else if i == 48 {
        reveal_strlit("family-safety");
        reveal_strlit("MicrosoftCorporationII.MicrosoftFamily");
    } else if i == 49 {
        reveal_strlit("quick-assist");
        reveal_strlit("MicrosoftCorporationII.QuickAssist");
    } else if i == 50 {
        reveal_strlit("cross-device");
        reveal_strlit("MicrosoftWindows.CrossDevice");
    } else if i == 51 {
        reveal_strlit("phone-link");
        reveal_strlit("Microsoft.YourPhone");
    } else if i == 52 {
        reveal_strlit("whiteboard");
        reveal_strlit("Microsoft.Whiteboard");
    } else if i == 53 {
        reveal_strlit("widgets-experience");
        reveal_strlit("Microsoft.StartExperiencesApp");
    } else if i == 54 {
        reveal_strlit("m365-companions");
        reveal_strlit("Microsoft.M365Companions");
    } else if i == 55 {
        reveal_strlit("remote-desktop");
        reveal_strlit("Microsoft.RemoteDesktop");
    } else if i == 56 {
        reveal_strlit("photos");
        reveal_strlit("Microsoft.Windows.Photos");
    } else if i == 57 {
        reveal_strlit("paint");
        reveal_strlit("Microsoft.Paint");
    } else if i == 58 {
        reveal_strlit("notepad");
        reveal_strlit("Microsoft.WindowsNotepad");
    } else if i == 59 {
        reveal_strlit("calculator");
        reveal_strlit("Microsoft.WindowsCalculator");
    } else if i == 60 {
        reveal_strlit("camera");
        reveal_strlit("Microsoft.WindowsCamera");
    } else if i == 61 {
        reveal_strlit("snipping-tool");
        reveal_strlit("Microsoft.ScreenSketch");
    } else if i == 62 {
        reveal_strlit("terminal");
        reveal_strlit("Microsoft.WindowsTerminal");
    } else if i == 63 {
        reveal_strlit("microsoft-store");
        reveal_strlit("Microsoft.WindowsStore");
    } else if i == 64 {
        reveal_strlit("microsoft-edge");
        reveal_strlit("Microsoft.Edge");
    } else if i == 65 {
        reveal_strlit("onedrive");
        reveal_strlit("Microsoft.OneDrive");
    } else if i == 66 {
        reveal_strlit("spotify");
        reveal_strlit("SpotifyAB.SpotifyMusic");
    } else if i == 67 {
        reveal_strlit("netflix");
        reveal_strlit("4DF9E0F8.Netflix");
    } else if i == 68 {
        reveal_strlit("prime-video");
        reveal_strlit("AmazonVideo.PrimeVideo");
    } else if i == 69 {
        reveal_strlit("hulu");
        reveal_strlit("HULULLC.HULUPLUS");
    } else if i == 70 {
        reveal_strlit("tiktok");
        reveal_strlit("BytedancePte.Ltd.TikTok");
    } else if i == 71 {
        reveal_strlit("instagram");
        reveal_strlit("Facebook.Instagram");
    } else if i == 72 {
        reveal_strlit("facebook");
        reveal_strlit("Facebook.Facebook");
    } else if i == 73 {
        reveal_strlit("twitter");
        reveal_strlit("9E2F88E3.Twitter");
    } else if i == 74 {
        reveal_strlit("linkedin");
        reveal_strlit("LinkedInforWindows");
    } else if i == 75 {
        reveal_strlit("flipboard");
        reveal_strlit("Flipboard.Flipboard");
    } else if i == 76 {
        reveal_strlit("candy-crush-saga");
        reveal_strlit("king.com.CandyCrushSaga");
    } else if i == 77 {
        reveal_strlit("candy-crush-soda");
        reveal_strlit("king.com.CandyCrushSodaSaga");
    } else if i == 78 {
        reveal_strlit("bubble-witch-3");
        reveal_strlit("king.com.BubbleWitch3Saga");
    } else if i == 79 {
        reveal_strlit("asphalt-8");
        reveal_strlit("GAMELOFTSA.Asphalt8Airborne");
    } else if i == 80 {
        reveal_strlit("cooking-fever");
        reveal_strlit("Nordcurrent.CookingFever");
    } else if i == 81 {
        reveal_strlit("disney-magic-kingdoms");
        reveal_strlit("A278AB0D.DisneyMagicKingdoms");
    } else if i == 82 {
        reveal_strlit("march-of-empires");
        reveal_strlit("Glu.MarchofEmpires");
    } else if i == 83 {
        reveal_strlit("royal-revolt");
        reveal_strlit("Microsoft.RoyalRevolt2");
    } else if i == 84 {
        reveal_strlit("duolingo");
        reveal_strlit("DuoLLC.Duolingo-LearnLanguagesforFree");
    } else if i == 85 {
        reveal_strlit("photoshop-express");
        reveal_strlit("AdobeSystemsIncorporated.AdobePhotoshopExpress");
    } else if i == 86 {
        reveal_strlit("picsart");
        reveal_strlit("PicsArt.PicsArt-PhotoStudio");
    } else if i == 87 {
        reveal_strlit("polarr");
        reveal_strlit("AcquiredOnline.PolarrPhotoEditorAcademicEdition");
    } else if i == 88 {
        reveal_strlit("drawboard-pdf");
        reveal_strlit("Drawboard.DrawboardPDF");
    } else if i == 89 {
        reveal_strlit("cyberlink-media-suite");
        reveal_strlit("CyberLinkCorp.ac.CyberLinkMediaSuiteEssentials");
    } else if i == 90 {
        reveal_strlit("plex");
        reveal_strlit("PlexInc.Plex");
    } else if i == 91 {
        reveal_strlit("iheartradio");
        reveal_strlit("ClearChannel.iHeartRadio");
    } else if i == 92 {
        reveal_strlit("tunein-radio");
        reveal_strlit("TuneIn.TuneInRadio");
    } else if i == 93 {
        reveal_strlit("pandora");
        reveal_strlit("PandoraMediaInc.29680B314EFC2");
    } else if i == 94 {
        reveal_strlit("shazam");
        reveal_strlit("ShazamEntertainmentLtd.Shazam");
    } else if i == 95 {
        reveal_strlit("amazon");
        reveal_strlit("Amazon.com.Amazon");
    } else if i == 96 {
        reveal_strlit("wallet");
        reveal_strlit("Microsoft.Wallet");
    } else if i == 97 {
        reveal_strlit("winzip");
        reveal_strlit("WinZipComputing.WinZipUniversal");
    } else if i == 98 {
        reveal_strlit("fitbit");
        reveal_strlit("Fitbit.FitbitCoach");
    } else if i == 99 {
        reveal_strlit("viber");
        reveal_strlit("2414FC7A.Viber");
    } else if i == 100 {
        reveal_strlit("sling-tv");
        reveal_strlit("SlingTVLLC.SlingTV");
    } else if i == 101 {
        reveal_strlit("acg-media-player");
        reveal_strlit("Acgeditor.ACGMediaPlayer");
    } else if i == 102 {
        reveal_strlit("one-calendar");
        reveal_strlit("johnlangen.OneCalendar");
    } else if i == 103 {
        reveal_strlit("phototastic");
        reveal_strlit("Xerysoft.PhototasticCollage");
    } else if i == 104 {
        reveal_strlit("actipro");
        reveal_strlit("ActiproSoftwareLLC");
    } else if i == 105 {
        reveal_strlit("autodesk-sketchbook");
        reveal_strlit("AutodeskInc.AutodeskSketchBook");
    } else if i == 106 {
        reveal_strlit("caesars-slots");
        reveal_strlit("Playtika.CaesarsSlotsFreeCasino");
    } else if i == 107 {
        reveal_strlit("farmville-2");
        reveal_strlit("Zynga.FarmVille2CountryEscape");
    } else if i == 108 {
        reveal_strlit("hidden-city");
        reveal_strlit("G5E.HiddenCityMysteryofShadows");
    } else if i == 109 {
        reveal_strlit("nyt-crossword");
        reveal_strlit("NYTimes.DailyCrossword");
    } else if i == 110 {
        reveal_strlit("eclipse-manager");
        reveal_strlit("EclipseManager");
    } else if i == 111 {
        reveal_strlit("live-wallpaper");
        reveal_strlit("Sidia.LiveWallpaper");
    } else if i == 112 {
        reveal_strlit("wunderlist");
        reveal_strlit("6Wunderkinder.Wunderlist");
    } else if i == 113 {
        reveal_strlit("xing");
        reveal_strlit("XINGAG.XING");
    } else if i == 114 {
        reveal_strlit("disney");
        reveal_strlit("Disney.37853FC22B2CE");
    } else if i == 115 {
        reveal_strlit("hp-ai-center");
        reveal_strlit("AD2F1837.HPAIExperienceCenter");
    } else if i == 116 {
        reveal_strlit("hp-connected-music");
        reveal_strlit("AD2F1837.HPConnectedMusic");
    } else if i == 117 {
        reveal_strlit("hp-connected-photo");
        reveal_strlit("AD2F1837.HPConnectedPhotopoweredbySnapfish");
    } else if i == 118 {
        reveal_strlit("hp-desktop-support");
        reveal_strlit("AD2F1837.HPDesktopSupportUtilities");
    } else if i == 119 {
        reveal_strlit("hp-easy-clean");
        reveal_strlit("AD2F1837.HPEasyClean");
    } else if i == 120 {
        reveal_strlit("hp-file-viewer");
        reveal_strlit("AD2F1837.HPFileViewer");
    } else if i == 121 {
        reveal_strlit("hp-jumpstart");
        reveal_strlit("AD2F1837.HPJumpStarts");
    } else if i == 122 {
        reveal_strlit("hp-pc-diagnostics");
        reveal_strlit("AD2F1837.HPPCHardwareDiagnosticsWindows");
    } else if i == 123 {
        reveal_strlit("hp-power-manager");
        reveal_strlit("AD2F1837.HPPowerManager");
    } else if i == 124 {
        reveal_strlit("hp-printer-control");
        reveal_strlit("AD2F1837.HPPrinterControl");
    } else if i == 125 {
        reveal_strlit("hp-privacy-settings");
        reveal_strlit("AD2F1837.HPPrivacySettings");
    } else if i == 126 {
        reveal_strlit("hp-quickdrop");
        reveal_strlit("AD2F1837.HPQuickDrop");
    } else if i == 127 {
        reveal_strlit("hp-quicktouch");
        reveal_strlit("AD2F1837.HPQuickTouch");
    } else if i == 128 {
        reveal_strlit("hp-registration");
        reveal_strlit("AD2F1837.HPRegistration");
    } else if i == 129 {
        reveal_strlit("hp-support-assistant");
        reveal_strlit("AD2F1837.HPSupportAssistant");
    } else if i == 130 {
        reveal_strlit("hp-sure-shield");
        reveal_strlit("AD2F1837.HPSureShieldAI");
    } else if i == 131 {
        reveal_strlit("hp-system-info");
        reveal_strlit("AD2F1837.HPSystemInformation");
    } else if i == 132 {
        reveal_strlit("hp-welcome");
        reveal_strlit("AD2F1837.HPWelcome");
    } else if i == 133 {
        reveal_strlit("hp-workwell");
        reveal_strlit("AD2F1837.HPWorkWell");
    } else if i == 134 {
        reveal_strlit("myhp");
        reveal_strlit("AD2F1837.myHP");
    }
}

/// The table's ids are pairwise distinct and non-empty; its patterns are
/// non-empty and hold no `*`.
pub proof fn definition_table_well_formed()
    ensures
        forall|i: int|
            0 <= i < DEFINITION_COUNT ==> (#[trigger] definition_row(i)).0.len() > 0
                && definition_row(i).4.len() > 0 && has_no_wildcard(definition_row(i).4),
        forall|i: int, j: int|
            0 <= i < DEFINITION_COUNT && 0 <= j < DEFINITION_COUNT && i != j
                ==> (#[trigger] definition_row(i)).0 != (#[trigger] definition_row(j)).0,
{
    assert forall|i: int| 0 <= i < DEFINITION_COUNT implies (#[trigger] definition_row(i)).0.len()
        > 0 && definition_row(i).4.len() > 0 && has_no_wildcard(definition_row(i).4) by {
        lemma_row(i);
    }
    assert forall|i: int, j: int|
        0 <= i < DEFINITION_COUNT && 0 <= j < DEFINITION_COUNT && i != j implies (
        #[trigger] definition_row(i)).0 != (#[trigger] definition_row(j)).0 by {
        lemma_row(i);
        lemma_row(j);
    }
}

/// Appends row `old(r).len()` of the table, not yet checked against the
/// installed packages.
fn push_app(
    r: &mut Vec<BloatwareApp>,
    id: &str,
    name: &str,
    description: &str,
    safe: bool,
    package_pattern: &str,
)
    requires
        forall|i: int| 0 <= i < old(r)@.len() ==> holds_row(#[trigger] old(r)@[i], i),
        definition_row(old(r)@.len() as int) == (id@, name@, description@, safe, package_pattern@),
    ensures
        final(r)@.len() == old(r)@.len() + 1,
        forall|i: int| 0 <= i < final(r)@.len() ==> holds_row(#[trigger] final(r)@[i], i),
{
    r.push(
        BloatwareApp {
            id: String::from_str(id),
            name: String::from_str(name),
            description: String::from_str(description),
            safe,
            package_pattern: String::from_str(package_pattern),
            is_installed: false,
        },
    );
}

/// The removable applications that the catalog knows, row by row as
/// `definition_row` lists them, none yet marked installed. Ids are unique and
/// non-empty; patterns are non-empty and hold no `*`.
pub fn get_bloatware_definitions() -> (r: Vec<BloatwareApp>)
    ensures
        r@.len() == DEFINITION_COUNT,
        forall|i: int| 0 <= i < r@.len() ==> holds_row(#[trigger] r@[i], i),
        app_ids_unique(r@),
        forall|i: int|
            0 <= i < r@.len() ==> (#[trigger] r@[i]).id@.len() > 0
                && r@[i].package_pattern@.len() > 0 && has_no_wildcard(r@[i].package_pattern@),
{
    let mut r: Vec<BloatwareApp> = Vec::new();
    push_app(&mut r, "clipchamp", "Clipchamp", "Video editor from Microsoft", true, "Clipchamp.Clipchamp");
    push_app(&mut r, "cortana", "Cortana", "Microsoft Cortana voice assistant (Discontinued)", true, "Microsoft.549981C3F5F10");
    push_app(&mut r, "copilot", "Microsoft Copilot", "AI assistant integrated into Windows", true, "Microsoft.Copilot");
    push_app(&mut r, "bing-weather", "Weather App", "Weather forecast via Bing", true, "Microsoft.BingWeather");
    push_app(&mut r, "bing-news", "News App", "News aggregator via Bing", true, "Microsoft.BingNews");
    push_app(&mut r, "bing-sports", "Bing Sports", "Sports news and scores via Bing (Discontinued)", true, "Microsoft.BingSports");
    push_app(&mut r, "bing-finance", "Bing Finance", "Finance news and tracking via Bing (Discontinued)", true, "Microsoft.BingFinance");
    push_app(&mut r, "bing-search", "Bing Search", "Web Search from Microsoft Bing", true, "Microsoft.BingSearch");
    push_app(&mut r, "3d-builder", "3D Builder", "Basic 3D modeling software", true, "Microsoft.3DBuilder");
    push_app(&mut r, "3d-viewer", "3D Viewer", "Viewer for 3D models", true, "Microsoft.Microsoft3DViewer");
    push_app(&mut r, "print-3d", "Print 3D", "3D printing preparation software", true, "Microsoft.Print3D");
    push_app(&mut r, "paint-3d", "Paint 3D", "Modern paint application with 3D features", true, "Microsoft.MSPaint");
    push_app(&mut r, "office-hub", "Office Hub", "Hub to access Microsoft Office apps and documents", true, "Microsoft.MicrosoftOfficeHub");
    push_app(&mut r, "office-sway", "Sway", "Presentation and storytelling app", true, "Microsoft.Office.Sway");
    push_app(&mut r, "onenote", "OneNote (UWP)", "Digital note-taking app (UWP version)", true, "Microsoft.Office.OneNote");
    push_app(&mut r, "microsoft-solitaire", "Solitaire Collection", "Collection of solitaire card games", true, "Microsoft.MicrosoftSolitaireCollection");
    push_app(&mut r, "sticky-notes", "Sticky Notes", "Digital sticky notes app (Deprecated)", true, "Microsoft.MicrosoftStickyNotes");
    push_app(&mut r, "microsoft-todo", "Microsoft To Do", "To-do list and task management app", true, "Microsoft.Todos");
    push_app(&mut r, "microsoft-journal", "Microsoft Journal", "Digital note-taking app optimized for pen input", true, "Microsoft.MicrosoftJournal");
    push_app(&mut r, "power-automate", "Power Automate", "Desktop automation tool (RPA)", true, "Microsoft.PowerAutomateDesktop");
    push_app(&mut r, "power-bi", "Power BI", "Business analytics service client", true, "Microsoft.MicrosoftPowerBIForWindows");
    push_app(&mut r, "dev-home", "Dev Home", "Developer dashboard and tool configuration (Discontinued)", true, "Microsoft.Windows.DevHome");
    push_app(&mut r, "mixed-reality-portal", "Mixed Reality Portal", "Portal for Windows Mixed Reality headsets", true, "Microsoft.MixedReality.Portal");
    push_app(&mut r, "network-speed-test", "Network Speed Test", "Internet connection speed test utility", true, "Microsoft.NetworkSpeedTest");
    push_app(&mut r, "microsoft-news", "Microsoft News", "News aggregator (now part of Microsoft Start)", true, "Microsoft.News");
    push_app(&mut r, "messaging", "Messaging", "Messaging app, often integrates with Skype (Deprecated)", true, "Microsoft.Messaging");
    push_app(&mut r, "skype-app", "Skype (UWP)", "Skype communication app, UWP version (Discontinued)", true, "Microsoft.SkypeApp");
    push_app(&mut r, "oneconnect", "One Connect", "Mobile Operator management app (Replaced by Mobile Plans)", true, "Microsoft.OneConnect");
    push_app(&mut r, "windows-maps", "Windows Maps", "Mapping and navigation app", true, "Microsoft.WindowsMaps");
    push_app(&mut r, "windows-alarms", "Alarms & Clock", "Alarms & Clock app", true, "Microsoft.WindowsAlarms");
    push_app(&mut r, "sound-recorder", "Sound Recorder", "Basic audio recording app", true, "Microsoft.WindowsSoundRecorder");
    push_app(&mut r, "windows-feedback-hub", "Feedback Hub", "App for providing feedback to Microsoft on Windows", true, "Microsoft.WindowsFeedbackHub");
    push_app(&mut r, "get-help", "Get Help", "Required for some Windows 11 Troubleshooters and support", true, "Microsoft.GetHelp");
    push_app(&mut r, "get-started", "Get Started", "Tips and introductory guide for Windows", true, "Microsoft.Getstarted");
    push_app(&mut r, "zune-music", "Media Player", "Modern Media Player (Replaced Groove Music)", true, "Microsoft.ZuneMusic");
    push_app(&mut r, "zune-video", "Movies & TV", "Movies & TV app for video content", true, "Microsoft.ZuneVideo");
    push_app(&mut r, "people-app", "People", "Contacts management app", true, "Microsoft.People");
    push_app(&mut r, "mail-calendar", "Mail & Calendar", "Mail & Calendar app suite (Discontinued)", true, "Microsoft.windowscommunicationsapps");
    push_app(&mut r, "outlook-new", "Outlook for Windows", "New Outlook for Windows mail client", true, "Microsoft.OutlookForWindows");
    push_app(&mut r, "xbox-app", "Xbox Console Companion", "Old Xbox Console Companion App (Discontinued)", true, "Microsoft.XboxApp");
    push_app(&mut r, "xbox-tcui", "Xbox TCUI Framework", "UI framework required for Microsoft Store and certain games", false, "Microsoft.Xbox.TCUI");
    push_app(&mut r, "xbox-game-overlay", "Xbox Game Overlay", "Game overlay, part of Xbox Game Bar", false, "Microsoft.XboxGameOverlay");
    push_app(&mut r, "xbox-gaming-overlay", "Xbox Gaming Overlay", "Game overlay, required/useful for some games", false, "Microsoft.XboxGamingOverlay");
    push_app(&mut r, "xbox-identity", "Xbox Identity Provider", "Xbox sign-in framework, required for some games", false, "Microsoft.XboxIdentityProvider");
    push_app(&mut r, "xbox-speech", "Xbox Speech To Text", "Accessibility feature required for some games", false, "Microsoft.XboxSpeechToTextOverlay");
    push_app(&mut r, "xbox-gaming-app", "Xbox Gaming App", "Modern Xbox Gaming App, required for installing some PC games", false, "Microsoft.GamingApp");
    push_app(&mut r, "microsoft-teams-old", "Microsoft Teams (Old)", "Old Microsoft Teams personal (MS Store version)", true, "MicrosoftTeams");
    push_app(&mut r, "microsoft-teams-new", "Microsoft Teams (New)", "New Microsoft Teams app (Work/School or Personal)", true, "MSTeams");
    push_app(&mut r, "family-safety", "Family Safety", "Family Safety App for managing family accounts", true, "MicrosoftCorporationII.MicrosoftFamily");
    push_app(&mut r, "quick-assist", "Quick Assist", "Remote assistance tool", true, "MicrosoftCorporationII.QuickAssist");
    push_app(&mut r, "cross-device", "Cross Device Experience", "Phone integration within File Explorer and more", true, "MicrosoftWindows.CrossDevice");
    push_app(&mut r, "phone-link", "Phone Link", "Phone link (Connects Android/iOS phone to PC)", true, "Microsoft.YourPhone");
    push_app(&mut r, "whiteboard", "Whiteboard", "Digital collaborative whiteboard app", true, "Microsoft.Whiteboard");
    push_app(&mut r, "widgets-experience", "Widgets Experience", "This app powers Windows Widgets My Feed", true, "Microsoft.StartExperiencesApp");
    push_app(&mut r, "m365-companions", "Microsoft 365 Companions", "Microsoft 365 Calendar, Files and People mini-apps", true, "Microsoft.M365Companions");
    push_app(&mut r, "remote-desktop", "Remote Desktop", "Remote Desktop client app", true, "Microsoft.RemoteDesktop");
    push_app(&mut r, "photos", "Photos", "Default photo viewing and basic editing app", true, "Microsoft.Windows.Photos");
    push_app(&mut r, "paint", "Paint", "Classic Paint (Traditional 2D paint application)", true, "Microsoft.Paint");
    push_app(&mut r, "notepad", "Notepad", "Notepad text editor app", true, "Microsoft.WindowsNotepad");
    push_app(&mut r, "calculator", "Calculator", "Calculator app", true, "Microsoft.WindowsCalculator");
    push_app(&mut r, "camera", "Camera", "Camera app for using built-in or connected cameras", false, "Microsoft.WindowsCamera");
    push_app(&mut r, "snipping-tool", "Snipping Tool", "Screenshot and annotation tool", true, "Microsoft.ScreenSketch");
    push_app(&mut r, "terminal", "Windows Terminal", "Default terminal app in Windows 11", true, "Microsoft.WindowsTerminal");
    push_app(&mut r, "microsoft-store", "Microsoft Store", "Microsoft Store - WARNING: Cannot be reinstalled easily!", false, "Microsoft.WindowsStore");
    push_app(&mut r, "microsoft-edge", "Microsoft Edge", "Edge browser (Can only be uninstalled in EEA)", false, "Microsoft.Edge");
    push_app(&mut r, "onedrive", "OneDrive", "OneDrive consumer cloud storage client", false, "Microsoft.OneDrive");
    push_app(&mut r, "spotify", "Spotify", "Spotify music streaming app", true, "SpotifyAB.SpotifyMusic");
    push_app(&mut r, "netflix", "Netflix", "Netflix streaming service app", true, "4DF9E0F8.Netflix");
    push_app(&mut r, "prime-video", "Prime Video", "Amazon Prime Video streaming service app", true, "AmazonVideo.PrimeVideo");
    push_app(&mut r, "hulu", "Hulu", "Hulu streaming service app", true, "HULULLC.HULUPLUS");
    push_app(&mut r, "tiktok", "TikTok", "TikTok short-form video app", true, "BytedancePte.Ltd.TikTok");
    push_app(&mut r, "instagram", "Instagram", "Instagram social media app", true, "Facebook.Instagram");
    push_app(&mut r, "facebook", "Facebook", "Facebook social media app", true, "Facebook.Facebook");
    push_app(&mut r, "twitter", "Twitter (X)", "Twitter (now X) social media app", true, "9E2F88E3.Twitter");
    push_app(&mut r, "linkedin", "LinkedIn", "LinkedIn professional networking app", true, "LinkedInforWindows");
    push_app(&mut r, "flipboard", "Flipboard", "News and social network aggregator styled as a magazine", true, "Flipboard.Flipboard");
    push_app(&mut r, "candy-crush-saga", "Candy Crush Saga", "Puzzle game from King", true, "king.com.CandyCrushSaga");
    push_app(&mut r, "candy-crush-soda", "Candy Crush Soda", "Puzzle game from King", true, "king.com.CandyCrushSodaSaga");
    push_app(&mut r, "bubble-witch-3", "Bubble Witch 3", "Puzzle game from King", true, "king.com.BubbleWitch3Saga");
    push_app(&mut r, "asphalt-8", "Asphalt 8", "Racing game", true, "GAMELOFTSA.Asphalt8Airborne");
    push_app(&mut r, "cooking-fever", "Cooking Fever", "Restaurant simulation game", true, "Nordcurrent.CookingFever");
    push_app(&mut r, "disney-magic-kingdoms", "Disney Magic Kingdoms", "Disney theme park building game", true, "A278AB0D.DisneyMagicKingdoms");
    push_app(&mut r, "march-of-empires", "March of Empires", "Strategy game", true, "Glu.MarchofEmpires");
    push_app(&mut r, "royal-revolt", "Royal Revolt", "Tower defense / strategy game", true, "Microsoft.RoyalRevolt2");
    push_app(&mut r, "duolingo", "Duolingo", "Language learning app", true, "DuoLLC.Duolingo-LearnLanguagesforFree");
    push_app(&mut r, "photoshop-express", "Adobe Photoshop Express", "Basic photo editing app from Adobe", true, "AdobeSystemsIncorporated.AdobePhotoshopExpress");
    push_app(&mut r, "picsart", "PicsArt", "Photo editing and creative app", true, "PicsArt.PicsArt-PhotoStudio");
    push_app(&mut r, "polarr", "Polarr Photo Editor", "Photo editing app (Academic Edition)", true, "AcquiredOnline.PolarrPhotoEditorAcademicEdition");
    push_app(&mut r, "drawboard-pdf", "Drawboard PDF", "PDF viewing and annotation app", true, "Drawboard.DrawboardPDF");
    push_app(&mut r, "cyberlink-media-suite", "CyberLink Media Suite", "Multimedia software suite (often preinstalled by OEMs)", true, "CyberLinkCorp.ac.CyberLinkMediaSuiteEssentials");
    push_app(&mut r, "plex", "Plex", "Media server and player app", true, "PlexInc.Plex");
    push_app(&mut r, "iheartradio", "iHeartRadio", "Internet radio streaming app", true, "ClearChannel.iHeartRadio");
    push_app(&mut r, "tunein-radio", "TuneIn Radio", "Internet radio streaming app", true, "TuneIn.TuneInRadio");
    push_app(&mut r, "pandora", "Pandora", "Pandora music streaming app", true, "PandoraMediaInc.29680B314EFC2");
    push_app(&mut r, "shazam", "Shazam", "Music identification app", true, "ShazamEntertainmentLtd.Shazam");
    push_app(&mut r, "amazon", "Amazon", "Amazon shopping app", true, "Amazon.com.Amazon");
    push_app(&mut r, "wallet", "Wallet", "Wallet app", true, "Microsoft.Wallet");
    push_app(&mut r, "winzip", "WinZip", "File compression utility (UWP version)", true, "WinZipComputing.WinZipUniversal");
    push_app(&mut r, "fitbit", "Fitbit", "Fitbit activity tracker companion app", true, "Fitbit.FitbitCoach");
    push_app(&mut r, "viber", "Viber", "Messaging and calling app", true, "2414FC7A.Viber");
    push_app(&mut r, "sling-tv", "Sling TV", "Live TV streaming service app", true, "SlingTVLLC.SlingTV");
    push_app(&mut r, "acg-media-player", "ACG Media Player", "Media player app", true, "Acgeditor.ACGMediaPlayer");
    push_app(&mut r, "one-calendar", "One Calendar", "Calendar aggregation app", true, "johnlangen.OneCalendar");
    push_app(&mut r, "phototastic", "Phototastic Collage", "Photo collage creation app", true, "Xerysoft.PhototasticCollage");
    push_app(&mut r, "actipro", "Actipro Software", "UI controls or software components, often bundled by OEMs", true, "ActiproSoftwareLLC");
    push_app(&mut r, "autodesk-sketchbook", "Autodesk SketchBook", "Digital drawing and sketching app", true, "AutodeskInc.AutodeskSketchBook");
    push_app(&mut r, "caesars-slots", "Caesars Slots", "Casino slot machine game", true, "Playtika.CaesarsSlotsFreeCasino");
    push_app(&mut r, "farmville-2", "FarmVille 2", "Farming simulation game", true, "Zynga.FarmVille2CountryEscape");
    push_app(&mut r, "hidden-city", "Hidden City", "Hidden object puzzle adventure game", true, "G5E.HiddenCityMysteryofShadows");
    push_app(&mut r, "nyt-crossword", "NYT Crossword", "New York Times crossword puzzle app", true, "NYTimes.DailyCrossword");
    push_app(&mut r, "eclipse-manager", "Eclipse Manager", "OEM software or utilities", true, "EclipseManager");
    push_app(&mut r, "live-wallpaper", "Live Wallpaper", "Live wallpaper app", true, "Sidia.LiveWallpaper");
    push_app(&mut r, "wunderlist", "Wunderlist", "To-do list app (Acquired by Microsoft, moved to To Do)", true, "6Wunderkinder.Wunderlist");
    push_app(&mut r, "xing", "XING", "Professional networking platform", true, "XINGAG.XING");
    push_app(&mut r, "disney", "Disney", "General Disney content app", true, "Disney.37853FC22B2CE");
    push_app(&mut r, "hp-ai-center", "HP AI Experience Center", "HP OEM software, AI-enhanced features and support", true, "AD2F1837.HPAIExperienceCenter");
    push_app(&mut r, "hp-connected-music", "HP Connected Music", "HP OEM software for music", true, "AD2F1837.HPConnectedMusic");
    push_app(&mut r, "hp-connected-photo", "HP Connected Photo", "HP OEM software for photos", true, "AD2F1837.HPConnectedPhotopoweredbySnapfish");
    push_app(&mut r, "hp-desktop-support", "HP Desktop Support Utilities", "HP OEM software providing desktop support tools", true, "AD2F1837.HPDesktopSupportUtilities");
    push_app(&mut r, "hp-easy-clean", "HP Easy Clean", "HP OEM software for system cleaning", true, "AD2F1837.HPEasyClean");
    push_app(&mut r, "hp-file-viewer", "HP File Viewer", "HP OEM software for viewing files", true, "AD2F1837.HPFileViewer");
    push_app(&mut r, "hp-jumpstart", "HP JumpStarts", "HP OEM software for tutorials and quick access", true, "AD2F1837.HPJumpStarts");
    push_app(&mut r, "hp-pc-diagnostics", "HP PC Hardware Diagnostics", "HP OEM software for PC hardware diagnostics", true, "AD2F1837.HPPCHardwareDiagnosticsWindows");
    push_app(&mut r, "hp-power-manager", "HP Power Manager", "HP OEM software for managing power settings", true, "AD2F1837.HPPowerManager");
    push_app(&mut r, "hp-printer-control", "HP Printer Control", "HP OEM software for managing HP printers", true, "AD2F1837.HPPrinterControl");
    push_app(&mut r, "hp-privacy-settings", "HP Privacy Settings", "HP OEM software for managing privacy settings", true, "AD2F1837.HPPrivacySettings");
    push_app(&mut r, "hp-quickdrop", "HP QuickDrop", "HP OEM software for quick file transfer", true, "AD2F1837.HPQuickDrop");
    push_app(&mut r, "hp-quicktouch", "HP QuickTouch", "HP OEM software for touch-specific shortcuts", true, "AD2F1837.HPQuickTouch");
    push_app(&mut r, "hp-registration", "HP Registration", "HP OEM software for product registration", true, "AD2F1837.HPRegistration");
    push_app(&mut r, "hp-support-assistant", "HP Support Assistant", "HP OEM software for support and troubleshooting", true, "AD2F1837.HPSupportAssistant");
    push_app(&mut r, "hp-sure-shield", "HP Sure Shield AI", "HP OEM security software, AI-based threat protection", true, "AD2F1837.HPSureShieldAI");
    push_app(&mut r, "hp-system-info", "HP System Information", "HP OEM software for displaying system information", true, "AD2F1837.HPSystemInformation");
    push_app(&mut r, "hp-welcome", "HP Welcome", "HP OEM software providing welcome experience", true, "AD2F1837.HPWelcome");
    push_app(&mut r, "hp-workwell", "HP WorkWell", "HP OEM software focused on well-being", true, "AD2F1837.HPWorkWell");
    push_app(&mut r, "myhp", "myHP", "HP OEM central hub app for device info and services", true, "AD2F1837.myHP");
    proof {
        definition_table_well_formed();
        assert forall|i: int, j: int|
            0 <= i < r@.len() && 0 <= j < r@.len() && i != j implies #[trigger] r@[i].id@
            != #[trigger] r@[j].id@ by {
            assert(holds_row(r@[i], i));
            assert(holds_row(r@[j], j));
        }
        assert forall|i: int| 0 <= i < r@.len() implies (#[trigger] r@[i]).id@.len() > 0
            && r@[i].package_pattern@.len() > 0 && has_no_wildcard(r@[i].package_pattern@) by {
            assert(holds_row(r@[i], i));
        }
    }
    r
}

} // verus!
